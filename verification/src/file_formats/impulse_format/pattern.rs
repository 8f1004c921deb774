//! Packed patterns of the Impulse Tracker format: an 8 byte header that holds the byte
//! length of the packed data, then the rows, each a run of channel entries ended by a zero
//! byte.
use vstd::prelude::*;

verus! {

/// One piece of a packed pattern.
#[derive(Debug, Clone, Copy, PartialEq, Eq, Structural)]
pub enum PatternItem {
    /// the end of row `row`, counted from 0
    EndOfRow(u8),
    /// an entry for `channel` (0 based); `mask` says which values follow, and which are
    /// to be taken over from the channel's last entry
    Entry {
        channel: u8,
        mask: u8,
        note: Option<u8>,
        instrument: Option<u8>,
        vol_pan: Option<u8>,
        command: Option<u8>,
        command_value: Option<u8>,
        last_note: bool,
        last_instrument: bool,
        last_vol_pan: bool,
        last_command: bool,
    },
}

/// Reads one byte at `p` if `present`: `None` if it lies at or past `limit`, else the byte
/// (or nothing when not present) and the position after it.
pub open spec fn take_byte(buf: Seq<u8>, limit: int, p: int, present: bool) -> Option<(Option<u8>, int)> {
    if !present {
        Some((None, p))
    } else if p < limit {
        Some((Some(buf[p]), p + 1))
    } else {
        None
    }
}

/// The entry whose channel byte lies at `pos` and the position after it, or `None` where
/// it runs past `limit`. A channel byte with the top bit set is followed by a mask byte;
/// mask bits 0 to 3 say that a note, an instrument, a volume/panning value and a command
/// with its value follow, bits 4 to 7 that they are the channel's last ones.
pub open spec fn read_entry(buf: Seq<u8>, limit: int, pos: int) -> Option<(PatternItem, int)> {
    let cv = buf[pos];
    match take_byte(buf, limit, pos + 1, cv & 128u8 != 0) {
        None => None,
        Some((m, p2)) => {
            let mask: u8 = match m {
                Some(v) => v,
                None => 0,
            };
            match take_byte(buf, limit, p2, mask & 1u8 != 0) {
                None => None,
                Some((note, p3)) => match take_byte(buf, limit, p3, mask & 2u8 != 0) {
                    None => None,
                    Some((instrument, p4)) => match take_byte(buf, limit, p4, mask & 4u8 != 0) {
                        None => None,
                        Some((vol_pan, p5)) => match take_byte(buf, limit, p5, mask & 8u8 != 0) {
                            None => None,
                            Some((cmd, p6)) => match take_byte(buf, limit, p6, mask & 8u8 != 0) {
                                None => None,
                                Some((cmd_val, p7)) => Some(
                                    (
                                        PatternItem::Entry {
                                            channel: ((cv - 1) as u8) & 63u8,
                                            mask,
                                            note,
                                            instrument,
                                            vol_pan,
                                            command: cmd,
                                            command_value: cmd_val,
                                            last_note: mask & 16u8 != 0,
                                            last_instrument: mask & 32u8 != 0,
                                            last_vol_pan: mask & 64u8 != 0,
                                            last_command: mask & 128u8 != 0,
                                        },
                                        p7,
                                    ),
                                ),
                            },
                        },
                    },
                },
            }
        },
    }
}

/// The items from `pos` on, until `end`, counting rows from `row`; `None` where an entry
/// runs past `limit` or a 256th row would end.
pub open spec fn decode(buf: Seq<u8>, limit: int, end: int, pos: int, row: u8) -> Option<Seq<PatternItem>>
    decreases end - pos,
{
    if pos >= end || pos < 0 {
        Some(Seq::empty())
    } else if buf[pos] == 0 {
        if row == 255 {
            None
        } else {
            match decode(buf, limit, end, pos + 1, (row + 1) as u8) {
                Some(rest) => Some(seq![PatternItem::EndOfRow(row)] + rest),
                None => None,
            }
        }
    } else {
        match read_entry(buf, limit, pos) {
            None => None,
            Some((item, next)) => if pos < next < end {
                match decode(buf, limit, end, next, row) {
                    Some(rest) => Some(seq![item] + rest),
                    None => None,
                }
            } else if next >= end {
                Some(seq![item])
            } else {
                None
            },
        }
    }
}

/// The items of the packed pattern `buf`: the first two bytes hold the length of the
/// packed data after the 8 byte header, little endian. `None` where the buffer is shorter
/// than the header's first four bytes or than the header and the data, or the data does
/// not decode; no byte after the data is read.
pub open spec fn pattern_items(buf: Seq<u8>) -> Option<Seq<PatternItem>> {
    if buf.len() < 4 {
        None
    } else {
        let end = buf[0] + 256 * buf[1] + 8;
        if end > buf.len() {
            None
        } else {
            decode(buf, end, end, 8, 0)
        }
    }
}

fn take_byte_exec(buf: &[u8], limit: usize, p: usize, present: bool) -> (r: Option<(Option<u8>, usize)>)
    requires
        limit <= buf@.len(),
        p <= limit,
    ensures
        r is None <==> take_byte(buf@, limit as int, p as int, present) is None,
        r matches Some((v, q)) ==> take_byte(buf@, limit as int, p as int, present) == Some((v, q as int)) && q <= limit,
{
    if !present {
        Some((None, p))
    } else if p < limit {
        Some((Some(buf[p]), p + 1))
    } else {
        None
    }
}

fn read_entry_exec(buf: &[u8], limit: usize, pos: usize) -> (r: Option<(PatternItem, usize)>)
    requires
        pos < limit <= buf@.len(),
        buf@[pos as int] != 0,
    ensures
        r is None <==> read_entry(buf@, limit as int, pos as int) is None,
        r matches Some((item, q)) ==> read_entry(buf@, limit as int, pos as int) == Some((item, q as int)) && pos < q <= limit,
{
    let cv = buf[pos];
    let (m, p2) = match take_byte_exec(buf, limit, pos + 1, cv & 128u8 != 0) {
        None => return None,
        Some(x) => x,
    };
    let mask: u8 = match m {
        Some(v) => v,
        None => 0,
    };
    let (note, p3) = match take_byte_exec(buf, limit, p2, mask & 1u8 != 0) {
        None => return None,
        Some(x) => x,
    };
    let (instrument, p4) = match take_byte_exec(buf, limit, p3, mask & 2u8 != 0) {
        None => return None,
        Some(x) => x,
    };
    let (vol_pan, p5) = match take_byte_exec(buf, limit, p4, mask & 4u8 != 0) {
        None => return None,
        Some(x) => x,
    };
    let (cmd, p6) = match take_byte_exec(buf, limit, p5, mask & 8u8 != 0) {
        None => return None,
        Some(x) => x,
    };
    let (cmd_val, p7) = match take_byte_exec(buf, limit, p6, mask & 8u8 != 0) {
        None => return None,
        Some(x) => x,
    };
    Some(
        (
            PatternItem::Entry {
                channel: (cv - 1) & 63u8,
                mask,
                note,
                instrument,
                vol_pan,
                command: cmd,
                command_value: cmd_val,
                last_note: mask & 16u8 != 0,
                last_instrument: mask & 32u8 != 0,
                last_vol_pan: mask & 64u8 != 0,
                last_command: mask & 128u8 != 0,
            },
            p7,
        ),
    )
}

/// A packed pattern of the Impulse Tracker format.
pub struct ImpulsePattern {}

impl ImpulsePattern {
    /// The items of the packed pattern at the start of `buf`, in the order they are stored.
    pub fn load(buf: &[u8]) -> (r: Option<Vec<PatternItem>>)
        ensures
            r matches Some(items) ==> pattern_items(buf@) == Some(items@),
            r is None ==> pattern_items(buf@) is None,
    {
        if buf.len() < 4 {
            return None;
        }
        let length = (buf[0] as usize) + 256 * (buf[1] as usize);
        let end = length + 8;
        if end > buf.len() {
            return None;
        }
        let limit = end;
        let mut items: Vec<PatternItem> = Vec::new();
        let mut pos: usize = 8;
        let mut row: u8 = 0;
        while pos < end
            invariant
                limit == end,
                end <= buf@.len(),
                8 <= pos <= limit,
                pattern_items(buf@) == decode(buf@, limit as int, end as int, 8, 0),
                decode(buf@, limit as int, end as int, 8, 0) == match decode(buf@, limit as int, end as int, pos as int, row) {
                    Some(rest) => Some(items@ + rest),
                    None => None::<Seq<PatternItem>>,
                },
            decreases limit - pos,
        {
            if buf[pos] == 0 {
                if row == 255 {
                    return None;
                }
                let ghost before = items@;
                items.push(PatternItem::EndOfRow(row));
                proof {
                    let rest = decode(buf@, limit as int, end as int, (pos + 1) as int, (row + 1) as u8);
                    if let Some(r) = rest {
                        assert(before + (seq![PatternItem::EndOfRow(row)] + r) =~= items@ + r);
                    }
                }
                pos += 1;
                row += 1;
            } else {
                match read_entry_exec(buf, limit, pos) {
                    None => return None,
                    Some((item, next)) => {
                        let ghost before = items@;
                        items.push(item);
                        proof {
                            let rest = decode(buf@, limit as int, end as int, next as int, row);
                            if let Some(r) = rest {
                                assert(before + (seq![item] + r) =~= items@ + r);
                            }
                            if next >= end {
                                assert(before + seq![item] =~= items@ + Seq::<PatternItem>::empty());
                            }
                        }
                        pos = next;
                    },
                }
            }
        }
        Some(items)
    }
}

/// Whether the row ends among `items` are numbered `from`, `from + 1`, ... in order.
pub open spec fn rows_numbered(items: Seq<PatternItem>, from: int) -> bool
    decreases items.len(),
{
    if items.len() == 0 {
        true
    } else {
        match items[0] {
            PatternItem::EndOfRow(r) => r == from && rows_numbered(items.drop_first(), from + 1),
            PatternItem::Entry { .. } => rows_numbered(items.drop_first(), from),
        }
    }
}

proof fn lemma_decode_rows_numbered(buf: Seq<u8>, limit: int, end: int, pos: int, row: u8)
    requires
        decode(buf, limit, end, pos, row) is Some,
    ensures
        rows_numbered(decode(buf, limit, end, pos, row)->0, row as int),
    decreases end - pos,
{
    if pos >= end || pos < 0 {
    } else if buf[pos] == 0 {
        let next_row = (row + 1) as u8;
        lemma_decode_rows_numbered(buf, limit, end, pos + 1, next_row);
        let rest = decode(buf, limit, end, pos + 1, next_row)->0;
        let all = seq![PatternItem::EndOfRow(row)] + rest;
        assert(row != 255);
        assert(all.drop_first() =~= rest);
        assert(all[0] == PatternItem::EndOfRow(row));
        assert(decode(buf, limit, end, pos, row)->0 == all);
    } else {
        let (item, next) = read_entry(buf, limit, pos)->0;
        if pos < next < end {
            lemma_decode_rows_numbered(buf, limit, end, next, row);
            let rest = decode(buf, limit, end, next, row)->0;
            let all = seq![item] + rest;
            assert(item is Entry);
            assert(all.drop_first() =~= rest);
            assert(all[0] == item);
            assert(decode(buf, limit, end, pos, row)->0 == all);
        } else {
            assert(item is Entry);
            assert(seq![item].drop_first() =~= Seq::<PatternItem>::empty());
            assert(rows_numbered(Seq::<PatternItem>::empty(), row as int));
        }
    }
}

/// The row ends of a packed pattern are numbered from 0 up, one after the other.
pub proof fn lemma_rows_numbered(buf: Seq<u8>)
    requires
        pattern_items(buf) is Some,
    ensures
        rows_numbered(pattern_items(buf)->0, 0),
{
    let end = buf[0] + 256 * buf[1] + 8;
    lemma_decode_rows_numbered(buf, end, end, 8, 0);
}


/// 1 where `mask` has bit `b` set, else 0.
pub open spec fn mask_bit(mask: u8, b: u8) -> int {
    if mask & b != 0 {
        1
    } else {
        0
    }
}

/// The values of an entry follow its mask byte one after the other, in the order note,
/// instrument, volume/panning, command, command value: each is there exactly when its mask
/// bit (1, 2, 4, 8) is set, and takes the next byte.
pub proof fn lemma_entry_values_in_order(buf: Seq<u8>, limit: int, pos: int)
    requires
        0 <= pos,
        limit <= buf.len(),
        buf[pos] & 128u8 != 0,
        pos + 2 + mask_bit(buf[pos + 1], 1) + mask_bit(buf[pos + 1], 2) + mask_bit(buf[pos + 1], 4) + 2
            * mask_bit(buf[pos + 1], 8) <= limit,
    ensures
        ({
            let m = buf[pos + 1];
            let p = pos + 2;
            let b1 = mask_bit(m, 1);
            let b2 = mask_bit(m, 2);
            let b4 = mask_bit(m, 4);
            let b8 = mask_bit(m, 8);
            &&& read_entry(buf, limit, pos) matches Some((PatternItem::Entry { channel, mask, note, instrument, vol_pan, command, command_value, .. }, next))
            &&& mask == m
            &&& channel == ((buf[pos] - 1) as u8) & 63u8
            &&& note == if b1 == 1 { Some(buf[p]) } else { None }
            &&& instrument == if b2 == 1 { Some(buf[p + b1]) } else { None }
            &&& vol_pan == if b4 == 1 { Some(buf[p + b1 + b2]) } else { None }
            &&& command == if b8 == 1 { Some(buf[p + b1 + b2 + b4]) } else { None }
            &&& command_value == if b8 == 1 { Some(buf[p + b1 + b2 + b4 + 1]) } else { None }
            &&& next == p + b1 + b2 + b4 + 2 * b8
        }),
{
}

/// A pattern of one row that holds one entry on channel 0 with a note, an instrument and a
/// volume/panning value: the three bytes after the mask are, in this order, the note, the
/// instrument and the volume/panning value.
pub proof fn lemma_note_instrument_vol_pan(a: u8, b: u8, c: u8)
    ensures
        pattern_items(seq![6u8, 0, 1, 0, 0, 0, 0, 0, 0x81, 7, a, b, c, 0]) == Some(
            seq![
                PatternItem::Entry {
                    channel: 0,
                    mask: 7,
                    note: Some(a),
                    instrument: Some(b),
                    vol_pan: Some(c),
                    command: None,
                    command_value: None,
                    last_note: false,
                    last_instrument: false,
                    last_vol_pan: false,
                    last_command: false,
                },
                PatternItem::EndOfRow(0),
            ],
        ),
{
    let buf = seq![6u8, 0, 1, 0, 0, 0, 0, 0, 0x81, 7, a, b, c, 0];
    assert(0x81u8 & 128u8 != 0 && ((0x81u8 - 1) as u8) & 63u8 == 0) by (bit_vector);
    assert(7u8 & 1u8 != 0 && 7u8 & 2u8 != 0 && 7u8 & 4u8 != 0 && 7u8 & 8u8 == 0) by (bit_vector);
    assert(7u8 & 16u8 == 0 && 7u8 & 32u8 == 0 && 7u8 & 64u8 == 0 && 7u8 & 128u8 == 0) by (bit_vector);
    let entry = PatternItem::Entry {
        channel: 0,
        mask: 7,
        note: Some(a),
        instrument: Some(b),
        vol_pan: Some(c),
        command: None,
        command_value: None,
        last_note: false,
        last_instrument: false,
        last_vol_pan: false,
        last_command: false,
    };
    assert(read_entry(buf, 14, 8) == Some((entry, 13int)));
    assert(decode(buf, 14, 14, 14, 1) == Some(Seq::<PatternItem>::empty()));
    assert(decode(buf, 14, 14, 13, 0) == Some(seq![PatternItem::EndOfRow(0)] + Seq::<PatternItem>::empty()));
    assert(decode(buf, 14, 14, 8, 0) == Some(seq![entry] + (seq![PatternItem::EndOfRow(0)] + Seq::<PatternItem>::empty())));
    assert(seq![entry] + (seq![PatternItem::EndOfRow(0)] + Seq::<PatternItem>::empty()) =~= seq![entry, PatternItem::EndOfRow(0)]);
}

} // verus!
