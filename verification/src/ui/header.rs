//! The header above the pages: song position, sample, playback.
use vstd::prelude::*;
use vstd::string::*;
use vstd::utf8::is_ascii_chars;

use crate::coordinates::{CharPosition, CharRect};
use crate::draw_buffer::{DrawBuffer, Paint};
use crate::font::{basic_font_glyph, basic_glyph};
use crate::numbers::{decimal, decimal_digits, is_digit, lemma_decimal, push_decimal, push_str, zero_padded};
use crate::ui::pages::pattern::DEFAULT_ROWS;

verus! {

/// Where the playback is.
#[derive(Debug, Clone, Copy, PartialEq, Eq, Structural)]
pub struct PlaybackPosition {
    pub order: Option<u16>,
    pub pattern: u8,
    pub row: u16,
}

/// What to play: one pattern, or the order list from an entry on.
#[derive(Debug, Clone, Copy, PartialEq, Eq, Structural)]
pub enum PlaybackSettings {
    Pattern { idx: u8, should_loop: bool },
    Order { idx: u16, should_loop: bool },
}

pub enum HeaderEvent {
    SetCursorRow(u16),
    SetMaxCursorRow(u16),
    SetPattern(u8),
    SetMaxCursorPattern(u8),
    SetOrder(u16),
    SetOrderLen(u16),
    SetSample(u8, String),
    SetSpeed(usize),
    SetTempo(usize),
    SetPlayback(Option<PlaybackPosition>),
}

/// The line that the header shows while playing: the order entry (when an order is
/// played) out of the order list's length, the pattern and the row.
pub open spec fn playback_text(position: PlaybackPosition, order_len: u16) -> Seq<char> {
    "Playing, "@ + match position.order {
        Some(order) => "Order: "@ + decimal(order as nat) + "/"@ + decimal(order_len as nat) + ", "@,
        None => Seq::empty(),
    } + "Pattern: "@ + decimal(position.pattern as nat) + ", Row: "@ + decimal(position.row as nat)
}

/// The playback text filled up with spaces to 60 characters.
pub open spec fn playback_line(position: PlaybackPosition, order_len: u16) -> Seq<char> {
    let text = playback_text(position, order_len);
    text + Seq::new((60 - text.len()) as nat, |i: int| ' ')
}

/// Character `i` of `line`, drawn in row 9 from column 2 on: digits in colour 3, the rest
/// in colour 0.
pub open spec fn playback_glyph(line: Seq<char>, i: int) -> Paint {
    Paint::Glyph {
        glyph: basic_font_glyph(line[i]),
        x: 2 + i,
        y: 9,
        fg: if is_digit(line[i]) { 3 } else { 0 },
        bg: 2,
    }
}

/// What drawing the playback state does: the playback line while playing, else the row
/// cleared.
pub open spec fn playback_cmds(playback: Option<PlaybackPosition>, order_len: u16) -> Seq<Paint> {
    match playback {
        Some(position) => Seq::new(60, |i: int| playback_glyph(playback_line(position, order_len), i)),
        None => seq![Paint::Rect { color: 2, top: 9, bot: 9, left: 2, right: 62 }],
    }
}

/// The two digits that the header shows for sample slot `idx`: the first two of the slot
/// number written with at least two digits.
pub open spec fn sample_digits(idx: u8) -> Seq<char> {
    if idx < 100 {
        decimal_digits(idx as nat, 2)
    } else {
        decimal_digits((idx / 10) as nat, 2)
    }
}

pub struct Header {
    row: u16,
    max_row: u16,
    pattern: u8,
    max_pattern: u8,
    order: u16,
    order_len: u16,
    selected_sample: (u8, String),
    playback: Option<PlaybackPosition>,
}

impl Default for Header {
    /// Row 0 of 64, pattern 0 of 0, order 0 of 0, sample 0 without a name, not playing.
    fn default() -> (r: Self)
        ensures
            r.spec_row() == 0,
            r.spec_max_row() == DEFAULT_ROWS,
            r.spec_pattern() == 0,
            r.spec_max_pattern() == 0,
            r.spec_order() == 0,
            r.spec_order_len() == 0,
            r.spec_sample_index() == 0,
            r.spec_sample_name() == Seq::<char>::empty(),
            r.spec_playback() is None,
    {
        Self {
            row: 0,
            max_row: DEFAULT_ROWS as u16,
            pattern: 0,
            max_pattern: 0,
            order: 0,
            order_len: 0,
            selected_sample: (0, String::new()),
            playback: None,
        }
    }
}

impl Header {
    pub closed spec fn spec_row(&self) -> u16 {
        self.row
    }

    pub closed spec fn spec_max_row(&self) -> u16 {
        self.max_row
    }

    pub closed spec fn spec_pattern(&self) -> u8 {
        self.pattern
    }

    pub closed spec fn spec_max_pattern(&self) -> u8 {
        self.max_pattern
    }

    pub closed spec fn spec_order(&self) -> u16 {
        self.order
    }

    pub closed spec fn spec_order_len(&self) -> u16 {
        self.order_len
    }

    pub closed spec fn spec_sample_index(&self) -> u8 {
        self.selected_sample.0
    }

    pub closed spec fn spec_sample_name(&self) -> Seq<char> {
        self.selected_sample.1@
    }

    pub closed spec fn spec_playback(&self) -> Option<PlaybackPosition> {
        self.playback
    }

    /// Plays the pattern that the header shows, looping.
    pub fn play_current_pattern(&self) -> (r: PlaybackSettings)
        ensures
            r == (PlaybackSettings::Pattern { idx: self.spec_pattern(), should_loop: true }),
    {
        PlaybackSettings::Pattern { idx: self.pattern, should_loop: true }
    }

    /// Plays the order list from the entry that the header shows on, looping.
    pub fn play_current_order(&self) -> (r: PlaybackSettings)
        ensures
            r == (PlaybackSettings::Order { idx: self.spec_order(), should_loop: true }),
    {
        PlaybackSettings::Order { idx: self.order, should_loop: true }
    }

    /// The header after taking in `event`.
    pub closed spec fn after(self, event: HeaderEvent) -> Header {
        match event {
            HeaderEvent::SetCursorRow(r) => Header { row: r, ..self },
            HeaderEvent::SetMaxCursorRow(r) => Header { max_row: r, ..self },
            HeaderEvent::SetPattern(p) => Header { pattern: p, ..self },
            HeaderEvent::SetMaxCursorPattern(p) => Header { max_pattern: p, ..self },
            HeaderEvent::SetOrder(o) => Header { order: o, ..self },
            HeaderEvent::SetOrderLen(l) => Header { order_len: l, ..self },
            HeaderEvent::SetSample(i, n) => Header { selected_sample: (i, n), ..self },
            HeaderEvent::SetPlayback(p) => Header { playback: p, ..self },
            _ => self,
        }
    }

    /// Takes in what the event sets; everything else stays. Speed and tempo are not shown
    /// yet and are refused.
    pub fn process_event(&mut self, event: HeaderEvent)
        requires
            !(event is SetSpeed),
            !(event is SetTempo),
        ensures
            *final(self) == old(self).after(event),
            final(self).spec_row() == (match event {
                HeaderEvent::SetCursorRow(r) => r,
                _ => old(self).spec_row(),
            }),
            final(self).spec_max_row() == (match event {
                HeaderEvent::SetMaxCursorRow(r) => r,
                _ => old(self).spec_max_row(),
            }),
            final(self).spec_pattern() == (match event {
                HeaderEvent::SetPattern(p) => p,
                _ => old(self).spec_pattern(),
            }),
            final(self).spec_max_pattern() == (match event {
                HeaderEvent::SetMaxCursorPattern(p) => p,
                _ => old(self).spec_max_pattern(),
            }),
            final(self).spec_order() == (match event {
                HeaderEvent::SetOrder(o) => o,
                _ => old(self).spec_order(),
            }),
            final(self).spec_order_len() == (match event {
                HeaderEvent::SetOrderLen(l) => l,
                _ => old(self).spec_order_len(),
            }),
            final(self).spec_sample_index() == (match event {
                HeaderEvent::SetSample(i, _) => i,
                _ => old(self).spec_sample_index(),
            }),
            final(self).spec_sample_name() == (match event {
                HeaderEvent::SetSample(_, n) => n@,
                _ => old(self).spec_sample_name(),
            }),
            final(self).spec_playback() == (match event {
                HeaderEvent::SetPlayback(p) => p,
                _ => old(self).spec_playback(),
            }),
    {
        match event {
            HeaderEvent::SetCursorRow(r) => self.row = r,
            HeaderEvent::SetPattern(p) => self.pattern = p,
            HeaderEvent::SetOrder(o) => self.order = o,
            HeaderEvent::SetOrderLen(l) => self.order_len = l,
            HeaderEvent::SetSample(i, n) => {
                self.selected_sample.0 = i;
                self.selected_sample.1 = n;
            },
            HeaderEvent::SetSpeed(_) => {},
            HeaderEvent::SetTempo(_) => {},
            HeaderEvent::SetMaxCursorRow(r) => self.max_row = r,
            HeaderEvent::SetMaxCursorPattern(p) => self.max_pattern = p,
            HeaderEvent::SetPlayback(p) => self.playback = p,
        }
    }

    /// What `draw` needs: the row and order numbers fit into three digits and the sample
    /// name is ASCII.
    pub open spec fn drawable(&self) -> bool {
        &&& self.spec_row() <= 999
        &&& self.spec_max_row() <= 999
        &&& self.spec_order() <= 999
        &&& self.spec_order_len() <= 999
        &&& is_ascii_chars(self.spec_sample_name())
    }

    pub fn is_drawable(&self) -> (r: bool)
        ensures
            r == self.drawable(),
    {
        self.row <= 999 && self.max_row <= 999 && self.order <= 999 && self.order_len <= 999
            && self.selected_sample.1.is_ascii()
    }

    /// What drawing the header does: row, pattern and order with their maximums in three
    /// digits each, the sample name and number, then the playback state.
    pub open spec fn paint_cmds(&self) -> Seq<Paint> {
        seq![
            Paint::Text { text: decimal_digits(self.spec_row() as nat, 3), x: 12, y: 7, fg: 5, bg: 0 },
            Paint::Text { text: decimal_digits(self.spec_max_row() as nat, 3), x: 16, y: 7, fg: 5, bg: 0 },
            Paint::Text { text: decimal_digits(self.spec_pattern() as nat, 3), x: 12, y: 6, fg: 5, bg: 0 },
            Paint::Text { text: decimal_digits(self.spec_max_pattern() as nat, 3), x: 16, y: 6, fg: 5, bg: 0 },
            Paint::Text { text: decimal_digits(self.spec_order() as nat, 3), x: 12, y: 5, fg: 5, bg: 0 },
            Paint::Text { text: decimal_digits(self.spec_order_len() as nat, 3), x: 16, y: 5, fg: 5, bg: 0 },
            Paint::TextFit { text: self.spec_sample_name(), x: 53, y: 3, width: 24, fg: 5, bg: 0 },
            Paint::Text { text: sample_digits(self.spec_sample_index()), x: 50, y: 3, fg: 5, bg: 0 },
        ] + playback_cmds(self.spec_playback(), self.spec_order_len())
    }

    pub fn draw(&self, buffer: &mut DrawBuffer)
        requires
            old(buffer).wf(),
            self.drawable(),
        ensures
            final(buffer).painted(old(buffer), self.paint_cmds()),
    {
        let row = zero_padded(self.row as u32, 3);
        let max_row = zero_padded(self.max_row as u32, 3);
        let pattern = zero_padded(self.pattern as u32, 3);
        let max_pattern = zero_padded(self.max_pattern as u32, 3);
        let order = zero_padded(self.order as u32, 3);
        let order_len = zero_padded(self.order_len as u32, 3);
        let sample_idx = self.selected_sample.0;
        let shown: u32 = if sample_idx < 100 {
            sample_idx as u32
        } else {
            (sample_idx / 10) as u32
        };
        let sample = zero_padded(shown, 2);
        let ghost g0 = *buffer;
        buffer.draw_string(row.as_str(), CharPosition::new(12, 7), 5, 0);
        let ghost g1 = *buffer;
        buffer.draw_string(max_row.as_str(), CharPosition::new(16, 7), 5, 0);
        let ghost g2 = *buffer;
        buffer.draw_string(pattern.as_str(), CharPosition::new(12, 6), 5, 0);
        let ghost g3 = *buffer;
        buffer.draw_string(max_pattern.as_str(), CharPosition::new(16, 6), 5, 0);
        let ghost g4 = *buffer;
        buffer.draw_string(order.as_str(), CharPosition::new(12, 5), 5, 0);
        let ghost g5 = *buffer;
        buffer.draw_string(order_len.as_str(), CharPosition::new(16, 5), 5, 0);
        let ghost g6 = *buffer;
        buffer.draw_string_length(self.selected_sample.1.as_str(), CharPosition::new(53, 3), 24, 5, 0);
        let ghost g7 = *buffer;
        buffer.draw_string(sample.as_str(), CharPosition::new(50, 3), 5, 0);
        let ghost g8 = *buffer;
        self.draw_playback(buffer);
        let ghost g9 = *buffer;
        proof {
            let c = self.paint_cmds();
            DrawBuffer::lemma_painted_then(&g0, &g1, &g2, seq![c[0]], seq![c[1]]);
            assert(seq![c[0]] + seq![c[1]] =~= seq![c[0], c[1]]);
            DrawBuffer::lemma_painted_then(&g0, &g2, &g3, seq![c[0], c[1]], seq![c[2]]);
            assert(seq![c[0], c[1]] + seq![c[2]] =~= seq![c[0], c[1], c[2]]);
            DrawBuffer::lemma_painted_then(&g0, &g3, &g4, seq![c[0], c[1], c[2]], seq![c[3]]);
            assert(seq![c[0], c[1], c[2]] + seq![c[3]] =~= seq![c[0], c[1], c[2], c[3]]);
            DrawBuffer::lemma_painted_then(&g0, &g4, &g5, seq![c[0], c[1], c[2], c[3]], seq![c[4]]);
            assert(seq![c[0], c[1], c[2], c[3]] + seq![c[4]] =~= seq![c[0], c[1], c[2], c[3], c[4]]);
            DrawBuffer::lemma_painted_then(&g0, &g5, &g6, seq![c[0], c[1], c[2], c[3], c[4]], seq![c[5]]);
            assert(seq![c[0], c[1], c[2], c[3], c[4]] + seq![c[5]] =~= seq![c[0], c[1], c[2], c[3], c[4], c[5]]);
            DrawBuffer::lemma_painted_then(&g0, &g6, &g7, seq![c[0], c[1], c[2], c[3], c[4], c[5]], seq![c[6]]);
            assert(seq![c[0], c[1], c[2], c[3], c[4], c[5]] + seq![c[6]] =~= seq![c[0], c[1], c[2], c[3], c[4], c[5], c[6]]);
            DrawBuffer::lemma_painted_then(&g0, &g7, &g8, seq![c[0], c[1], c[2], c[3], c[4], c[5], c[6]], seq![c[7]]);
            assert(seq![c[0], c[1], c[2], c[3], c[4], c[5], c[6]] + seq![c[7]] =~= seq![c[0], c[1], c[2], c[3], c[4], c[5], c[6], c[7]]);
            DrawBuffer::lemma_painted_then(&g0, &g8, &g9, seq![c[0], c[1], c[2], c[3], c[4], c[5], c[6], c[7]], playback_cmds(self.spec_playback(), self.spec_order_len()));
            assert(seq![c[0], c[1], c[2], c[3], c[4], c[5], c[6], c[7]] + playback_cmds(self.spec_playback(), self.spec_order_len()) =~= c);
        }
    }

    /// Draws the playback line while playing, else clears its row.
    fn draw_playback(&self, buffer: &mut DrawBuffer)
        requires
            old(buffer).wf(),
        ensures
            final(buffer).painted(old(buffer), playback_cmds(self.spec_playback(), self.spec_order_len())),
    {
        match self.playback {
            None => buffer.draw_rect(2, CharRect::new(9, 9, 2, 62)),
            Some(position) => {
                let line = playback_chars(position, self.order_len);
                let ghost b0 = *buffer;
                proof {
                    DrawBuffer::lemma_painted_nothing(buffer);
                }
                let mut i: usize = 0;
                while i < 60
                    invariant
                        i <= 60,
                        line@ == playback_line(position, self.order_len),
                        is_ascii_chars(line@),
                        buffer.painted(&b0, Seq::new(i as nat, |k: int| playback_glyph(line@, k))),
                    decreases 60 - i,
                {
                    let ghost before = *buffer;
                    let c = line[i];
                    let fg: u8 = if c >= '0' && c <= '9' {
                        3
                    } else {
                        0
                    };
                    assert('\0' <= line@[i as int] <= '\u{7f}');
                    match basic_glyph(c) {
                        Some(glyph) => buffer.draw_char(glyph, CharPosition::new(2 + i, 9), fg, 2),
                        None => {},
                    }
                    proof {
                        DrawBuffer::lemma_painted_then(
                            &b0,
                            &before,
                            buffer,
                            Seq::new(i as nat, |k: int| playback_glyph(line@, k)),
                            seq![playback_glyph(line@, i as int)],
                        );
                        assert(Seq::new(i as nat, |k: int| playback_glyph(line@, k)) + seq![playback_glyph(line@, i as int)]
                            =~= Seq::new((i + 1) as nat, |k: int| playback_glyph(line@, k)));
                    }
                    i += 1;
                }
                proof {
                    assert(Seq::new(60, |k: int| playback_glyph(line@, k)) =~= playback_cmds(self.spec_playback(), self.spec_order_len()));
                }
            },
        }
    }

    /// What drawing the constant parts of the header does: background, labels, separators.
    pub open spec fn constant_cmds() -> Seq<Paint> {
        seq![
            Paint::Rect { color: 2, top: 0, bot: 11, left: 0, right: 79 },
            Paint::Text { text: "Torque Tracker"@, x: 34, y: 1, fg: 0, bg: 2 },
            Paint::Text { text: "Song Name"@, x: 2, y: 3, fg: 0, bg: 2 },
            Paint::Text { text: "File Name"@, x: 2, y: 4, fg: 0, bg: 2 },
            Paint::Text { text: "Order"@, x: 6, y: 5, fg: 0, bg: 2 },
            Paint::Text { text: "Pattern"@, x: 4, y: 6, fg: 0, bg: 2 },
            Paint::Text { text: "Row"@, x: 8, y: 7, fg: 0, bg: 2 },
            Paint::Text { text: "Speed/Tempo"@, x: 38, y: 4, fg: 0, bg: 2 },
            Paint::Text { text: "Octave"@, x: 43, y: 5, fg: 0, bg: 2 },
            Paint::Text { text: "F1...Help       F9.....Load"@, x: 21, y: 6, fg: 0, bg: 2 },
            Paint::Text { text: "ESC..Main Menu  F5/F8..Play / Stop"@, x: 21, y: 7, fg: 0, bg: 2 },
            Paint::Text { text: "Time"@, x: 63, y: 9, fg: 0, bg: 2 },
            Paint::Text { text: "/"@, x: 15, y: 5, fg: 1, bg: 0 },
            Paint::Text { text: "/"@, x: 15, y: 6, fg: 1, bg: 0 },
            Paint::Text { text: "/"@, x: 15, y: 7, fg: 1, bg: 0 },
            Paint::Text { text: "/"@, x: 53, y: 4, fg: 1, bg: 0 },
            Paint::Text { text: ":"@, x: 52, y: 3, fg: 7, bg: 0 },
            Paint::Text { text: "Sample"@, x: 43, y: 3, fg: 0, bg: 2 },
        ]
    }

    pub fn draw_constant(&self, buffer: &mut DrawBuffer)
        requires
            old(buffer).wf(),
        ensures
            final(buffer).painted(old(buffer), Self::constant_cmds()),
    {
        proof {
            reveal_strlit("/");
            reveal_strlit(":");
            reveal_strlit("ESC..Main Menu  F5/F8..Play / Stop");
            reveal_strlit("F1...Help       F9.....Load");
            reveal_strlit("File Name");
            reveal_strlit("Octave");
            reveal_strlit("Order");
            reveal_strlit("Pattern");
            reveal_strlit("Row");
            reveal_strlit("Sample");
            reveal_strlit("Song Name");
            reveal_strlit("Speed/Tempo");
            reveal_strlit("Time");
            reveal_strlit("Torque Tracker");
        }
        let ghost g0 = *buffer;
        buffer.draw_rect(2, CharRect::new(0, 11, 0, 79));
        let ghost g1 = *buffer;
        buffer.draw_string("Torque Tracker", CharPosition::new(34, 1), 0, 2);
        let ghost g2 = *buffer;
        buffer.draw_string("Song Name", CharPosition::new(2, 3), 0, 2);
        let ghost g3 = *buffer;
        buffer.draw_string("File Name", CharPosition::new(2, 4), 0, 2);
        let ghost g4 = *buffer;
        buffer.draw_string("Order", CharPosition::new(6, 5), 0, 2);
        let ghost g5 = *buffer;
        buffer.draw_string("Pattern", CharPosition::new(4, 6), 0, 2);
        let ghost g6 = *buffer;
        buffer.draw_string("Row", CharPosition::new(8, 7), 0, 2);
        let ghost g7 = *buffer;
        buffer.draw_string("Speed/Tempo", CharPosition::new(38, 4), 0, 2);
        let ghost g8 = *buffer;
        buffer.draw_string("Octave", CharPosition::new(43, 5), 0, 2);
        let ghost g9 = *buffer;
        buffer.draw_string("F1...Help       F9.....Load", CharPosition::new(21, 6), 0, 2);
        let ghost g10 = *buffer;
        buffer.draw_string("ESC..Main Menu  F5/F8..Play / Stop", CharPosition::new(21, 7), 0, 2);
        let ghost g11 = *buffer;
        buffer.draw_string("Time", CharPosition::new(63, 9), 0, 2);
        let ghost g12 = *buffer;
        buffer.draw_string("/", CharPosition::new(15, 5), 1, 0);
        let ghost g13 = *buffer;
        buffer.draw_string("/", CharPosition::new(15, 6), 1, 0);
        let ghost g14 = *buffer;
        buffer.draw_string("/", CharPosition::new(15, 7), 1, 0);
        let ghost g15 = *buffer;
        buffer.draw_string("/", CharPosition::new(53, 4), 1, 0);
        let ghost g16 = *buffer;
        buffer.draw_string(":", CharPosition::new(52, 3), 7, 0);
        let ghost g17 = *buffer;
        buffer.draw_string("Sample", CharPosition::new(43, 3), 0, 2);
        let ghost g18 = *buffer;
        proof {
            let c = Self::constant_cmds();
            DrawBuffer::lemma_painted_then(&g0, &g1, &g2, seq![c[0]], seq![c[1]]);
            assert(seq![c[0]] + seq![c[1]] =~= seq![c[0], c[1]]);
            DrawBuffer::lemma_painted_then(&g0, &g2, &g3, seq![c[0]] + seq![c[1]], seq![c[2]]);
            DrawBuffer::lemma_painted_then(&g0, &g3, &g4, seq![c[0]] + seq![c[1]] + seq![c[2]], seq![c[3]]);
            DrawBuffer::lemma_painted_then(&g0, &g4, &g5, seq![c[0]] + seq![c[1]] + seq![c[2]] + seq![c[3]], seq![c[4]]);
            DrawBuffer::lemma_painted_then(&g0, &g5, &g6, seq![c[0]] + seq![c[1]] + seq![c[2]] + seq![c[3]] + seq![c[4]], seq![c[5]]);
            DrawBuffer::lemma_painted_then(&g0, &g6, &g7, seq![c[0]] + seq![c[1]] + seq![c[2]] + seq![c[3]] + seq![c[4]] + seq![c[5]], seq![c[6]]);
            DrawBuffer::lemma_painted_then(&g0, &g7, &g8, seq![c[0]] + seq![c[1]] + seq![c[2]] + seq![c[3]] + seq![c[4]] + seq![c[5]] + seq![c[6]], seq![c[7]]);
            DrawBuffer::lemma_painted_then(&g0, &g8, &g9, seq![c[0]] + seq![c[1]] + seq![c[2]] + seq![c[3]] + seq![c[4]] + seq![c[5]] + seq![c[6]] + seq![c[7]], seq![c[8]]);
            DrawBuffer::lemma_painted_then(&g0, &g9, &g10, seq![c[0]] + seq![c[1]] + seq![c[2]] + seq![c[3]] + seq![c[4]] + seq![c[5]] + seq![c[6]] + seq![c[7]] + seq![c[8]], seq![c[9]]);
            DrawBuffer::lemma_painted_then(&g0, &g10, &g11, seq![c[0]] + seq![c[1]] + seq![c[2]] + seq![c[3]] + seq![c[4]] + seq![c[5]] + seq![c[6]] + seq![c[7]] + seq![c[8]] + seq![c[9]], seq![c[10]]);
            DrawBuffer::lemma_painted_then(&g0, &g11, &g12, seq![c[0]] + seq![c[1]] + seq![c[2]] + seq![c[3]] + seq![c[4]] + seq![c[5]] + seq![c[6]] + seq![c[7]] + seq![c[8]] + seq![c[9]] + seq![c[10]], seq![c[11]]);
            DrawBuffer::lemma_painted_then(&g0, &g12, &g13, seq![c[0]] + seq![c[1]] + seq![c[2]] + seq![c[3]] + seq![c[4]] + seq![c[5]] + seq![c[6]] + seq![c[7]] + seq![c[8]] + seq![c[9]] + seq![c[10]] + seq![c[11]], seq![c[12]]);
            DrawBuffer::lemma_painted_then(&g0, &g13, &g14, seq![c[0]] + seq![c[1]] + seq![c[2]] + seq![c[3]] + seq![c[4]] + seq![c[5]] + seq![c[6]] + seq![c[7]] + seq![c[8]] + seq![c[9]] + seq![c[10]] + seq![c[11]] + seq![c[12]], seq![c[13]]);
            DrawBuffer::lemma_painted_then(&g0, &g14, &g15, seq![c[0]] + seq![c[1]] + seq![c[2]] + seq![c[3]] + seq![c[4]] + seq![c[5]] + seq![c[6]] + seq![c[7]] + seq![c[8]] + seq![c[9]] + seq![c[10]] + seq![c[11]] + seq![c[12]] + seq![c[13]], seq![c[14]]);
            DrawBuffer::lemma_painted_then(&g0, &g15, &g16, seq![c[0]] + seq![c[1]] + seq![c[2]] + seq![c[3]] + seq![c[4]] + seq![c[5]] + seq![c[6]] + seq![c[7]] + seq![c[8]] + seq![c[9]] + seq![c[10]] + seq![c[11]] + seq![c[12]] + seq![c[13]] + seq![c[14]], seq![c[15]]);
            DrawBuffer::lemma_painted_then(&g0, &g16, &g17, seq![c[0]] + seq![c[1]] + seq![c[2]] + seq![c[3]] + seq![c[4]] + seq![c[5]] + seq![c[6]] + seq![c[7]] + seq![c[8]] + seq![c[9]] + seq![c[10]] + seq![c[11]] + seq![c[12]] + seq![c[13]] + seq![c[14]] + seq![c[15]], seq![c[16]]);
            DrawBuffer::lemma_painted_then(&g0, &g17, &g18, seq![c[0]] + seq![c[1]] + seq![c[2]] + seq![c[3]] + seq![c[4]] + seq![c[5]] + seq![c[6]] + seq![c[7]] + seq![c[8]] + seq![c[9]] + seq![c[10]] + seq![c[11]] + seq![c[12]] + seq![c[13]] + seq![c[14]] + seq![c[15]] + seq![c[16]], seq![c[17]]);
            assert(seq![c[0]] + seq![c[1]] + seq![c[2]] + seq![c[3]] + seq![c[4]] + seq![c[5]] + seq![c[6]] + seq![c[7]] + seq![c[8]] + seq![c[9]] + seq![c[10]] + seq![c[11]] + seq![c[12]] + seq![c[13]] + seq![c[14]] + seq![c[15]] + seq![c[16]] + seq![c[17]] =~= c);
        }
    }
}

/// The playback line, written out.
fn playback_chars(position: PlaybackPosition, order_len: u16) -> (line: Vec<char>)
    ensures
        line@ == playback_line(position, order_len),
        is_ascii_chars(line@),
{
    proof {
        reveal_strlit("Playing, ");
        reveal_strlit("Order: ");
        reveal_strlit("/");
        reveal_strlit(", ");
        reveal_strlit("Pattern: ");
        reveal_strlit(", Row: ");
        lemma_decimal(position.pattern as nat);
        lemma_decimal(position.row as nat);
        lemma_decimal(order_len as nat);
    }
    let mut line: Vec<char> = Vec::new();
    push_str(&mut line, "Playing, ");
    match position.order {
        Some(order) => {
            proof {
                lemma_decimal(order as nat);
            }
            push_str(&mut line, "Order: ");
            push_decimal(&mut line, order as u32);
            push_str(&mut line, "/");
            push_decimal(&mut line, order_len as u32);
            push_str(&mut line, ", ");
        },
        None => {},
    }
    push_str(&mut line, "Pattern: ");
    push_decimal(&mut line, position.pattern as u32);
    push_str(&mut line, ", Row: ");
    push_decimal(&mut line, position.row as u32);
    let ghost text = line@;
    assert(text =~= playback_text(position, order_len));
    assert(text.len() <= 53);
    assert(is_ascii_chars(text)) by {
        assert forall|k: int| 0 <= k < text.len() implies '\0' <= #[trigger] text[k] <= '\u{7f}' by {
            assert(is_digit(text[k]) || text[k] == 'P' || text[k] == 'l' || text[k] == 'a' || text[k] == 'y'
                || text[k] == 'i' || text[k] == 'n' || text[k] == 'g' || text[k] == ',' || text[k] == ' '
                || text[k] == 'O' || text[k] == 'r' || text[k] == 'd' || text[k] == 'e' || text[k] == ':'
                || text[k] == '/' || text[k] == 't' || text[k] == 'R' || text[k] == 'o' || text[k] == 'w');
        }
    }
    while line.len() < 60
        invariant
            text.len() <= 53,
            text.len() <= line@.len() <= 60,
            is_ascii_chars(text),
            line@ == text + Seq::new((line@.len() - text.len()) as nat, |i: int| ' '),
        decreases 60 - line@.len(),
    {
        line.push(' ');
        assert(line@ =~= text + Seq::new((line@.len() - text.len()) as nat, |i: int| ' '));
    }
    assert(is_ascii_chars(line@)) by {
        assert forall|k: int| 0 <= k < line@.len() implies '\0' <= #[trigger] line@[k] <= '\u{7f}' by {
            if k < text.len() {
                assert(line@[k] == text[k]);
            }
        }
    }
    line
}

/// Whether taking in `event` keeps a header that can be drawn drawable: the row and
/// order numbers it sets fit into three digits, a sample name is ASCII, and it is no event
/// the header refuses.
pub open spec fn keeps_drawable(event: HeaderEvent) -> bool {
    match event {
        HeaderEvent::SetCursorRow(r) => r <= 999,
        HeaderEvent::SetMaxCursorRow(r) => r <= 999,
        HeaderEvent::SetOrder(o) => o <= 999,
        HeaderEvent::SetOrderLen(l) => l <= 999,
        HeaderEvent::SetSample(_, n) => is_ascii_chars(n@),
        HeaderEvent::SetSpeed(_) => false,
        HeaderEvent::SetTempo(_) => false,
        _ => true,
    }
}

/// A drawable header stays drawable through an event that keeps it so.
pub proof fn lemma_keeps_drawable(header: Header, event: HeaderEvent)
    requires
        header.drawable(),
        keeps_drawable(event),
    ensures
        header.after(event).drawable(),
{
}


/// Each number field of the header shows in three decimal digits the value that was set
/// last for it, and no other event changes that field: the pattern from column 12 of row
/// 6, its maximum from column 16; the order from column 12 of row 5, the order list's
/// length from column 16; the row from column 12 of row 7, its maximum from column 16.
pub proof fn lemma_number_fields(header: Header, event: HeaderEvent, pattern: u8, order: u16, row: u16)
    ensures
        header.after(HeaderEvent::SetPattern(pattern)).paint_cmds()[2] == (Paint::Text {
            text: decimal_digits(pattern as nat, 3),
            x: 12,
            y: 6,
            fg: 5,
            bg: 0,
        }),
        !(event is SetPattern) ==> header.after(event).paint_cmds()[2] == header.paint_cmds()[2],
        header.after(HeaderEvent::SetMaxCursorPattern(pattern)).paint_cmds()[3] == (Paint::Text {
            text: decimal_digits(pattern as nat, 3),
            x: 16,
            y: 6,
            fg: 5,
            bg: 0,
        }),
        !(event is SetMaxCursorPattern) ==> header.after(event).paint_cmds()[3] == header.paint_cmds()[3],
        header.after(HeaderEvent::SetOrder(order)).paint_cmds()[4] == (Paint::Text {
            text: decimal_digits(order as nat, 3),
            x: 12,
            y: 5,
            fg: 5,
            bg: 0,
        }),
        !(event is SetOrder) ==> header.after(event).paint_cmds()[4] == header.paint_cmds()[4],
        header.after(HeaderEvent::SetOrderLen(order)).paint_cmds()[5] == (Paint::Text {
            text: decimal_digits(order as nat, 3),
            x: 16,
            y: 5,
            fg: 5,
            bg: 0,
        }),
        !(event is SetOrderLen) ==> header.after(event).paint_cmds()[5] == header.paint_cmds()[5],
        header.after(HeaderEvent::SetCursorRow(row)).paint_cmds()[0] == (Paint::Text {
            text: decimal_digits(row as nat, 3),
            x: 12,
            y: 7,
            fg: 5,
            bg: 0,
        }),
        !(event is SetCursorRow) ==> header.after(event).paint_cmds()[0] == header.paint_cmds()[0],
        header.after(HeaderEvent::SetMaxCursorRow(row)).paint_cmds()[1] == (Paint::Text {
            text: decimal_digits(row as nat, 3),
            x: 16,
            y: 7,
            fg: 5,
            bg: 0,
        }),
        !(event is SetMaxCursorRow) ==> header.after(event).paint_cmds()[1] == header.paint_cmds()[1],
{
}

} // verus!
