//! A pattern: rows of note events, at most one per channel and row.
use vstd::prelude::*;

verus! {

/// One event on one channel in one row.
#[derive(Clone, Copy, Debug)]
pub struct Event {
    pub note: Option<u8>,
    pub instr: Option<u8>,
    pub vol_pan: u8,
    pub command: Option<(u8, u8)>,
}

/// The events of one row, each with its channel.
pub type Row = Vec<(u8, Event)>;

/// Whether no two entries of a row share a channel.
pub open spec fn unique_channels(entries: Seq<(u8, Event)>) -> bool {
    forall|i: int, j: int| 0 <= i < entries.len() && 0 <= j < entries.len() && i != j ==> #[trigger] entries[i].0 != #[trigger] entries[j].0
}

/// Whether an entry of the row is on `channel`.
pub open spec fn has_channel(entries: Seq<(u8, Event)>, channel: u8) -> bool {
    exists|i: int| 0 <= i < entries.len() && #[trigger] entries[i].0 == channel
}

/// The event of the row on `channel`, if it has one.
pub open spec fn entry_of(entries: Seq<(u8, Event)>, channel: u8) -> Option<Event> {
    if has_channel(entries, channel) {
        Some(entries[choose|i: int| 0 <= i < entries.len() && #[trigger] entries[i].0 == channel].1)
    } else {
        None
    }
}

/// In a row without repeated channels, the entry at `i` is the event of its channel.
pub proof fn lemma_entry_of_index(entries: Seq<(u8, Event)>, i: int)
    requires
        unique_channels(entries),
        0 <= i < entries.len(),
    ensures
        entry_of(entries, entries[i].0) == Some(entries[i].1),
{
    let c = entries[i].0;
    assert(has_channel(entries, c));
    let j = choose|j: int| 0 <= j < entries.len() && #[trigger] entries[j].0 == c;
    assert(j == i);
}

/// Whether `i` is the first entry of the row on `channel`.
pub open spec fn is_first_on(entries: Seq<(u8, Event)>, channel: u8, i: int) -> bool {
    &&& 0 <= i < entries.len()
    &&& entries[i].0 == channel
    &&& forall|k: int| 0 <= k < i ==> (#[trigger] entries[k]).0 != channel
}

/// The index of the first entry of the row on `channel`, where the row has one.
pub open spec fn first_on(entries: Seq<(u8, Event)>, channel: u8) -> int {
    choose|i: int| is_first_on(entries, channel, i)
}

/// The row after setting `event` on `channel`: the first entry on that channel is replaced
/// in place; without one, the new entry goes to the end.
pub open spec fn set_in_row(entries: Seq<(u8, Event)>, channel: u8, event: Event) -> Seq<(u8, Event)> {
    if has_channel(entries, channel) {
        entries.update(first_on(entries, channel), (channel, event))
    } else {
        entries.push((channel, event))
    }
}

/// The row after removing the event on `channel`: the last entry moves into the place of
/// the first entry on that channel; a row without one stays as it is.
pub open spec fn remove_from_row(entries: Seq<(u8, Event)>, channel: u8) -> Seq<(u8, Event)> {
    if has_channel(entries, channel) {
        entries.update(first_on(entries, channel), entries.last()).drop_last()
    } else {
        entries
    }
}

/// The first entry on a channel is the one `first_on` names, and the row has the channel.
pub proof fn lemma_first_on(entries: Seq<(u8, Event)>, channel: u8, p: int)
    requires
        is_first_on(entries, channel, p),
    ensures
        first_on(entries, channel) == p,
        has_channel(entries, channel),
{
    assert(entries[p].0 == channel);
    let q = first_on(entries, channel);
    assert(is_first_on(entries, channel, q));
    if q < p {
        assert(entries[q].0 != channel);
    } else if p < q {
        assert(entries[p].0 != channel);
    }
}

/// Setting an event on a channel that a row does not hold, then removing the event on
/// that channel, gives back the row as it was, entry for entry.
pub proof fn lemma_remove_undoes_set(entries: Seq<(u8, Event)>, channel: u8, event: Event)
    requires
        !has_channel(entries, channel),
    ensures
        remove_from_row(set_in_row(entries, channel, event), channel) == entries,
{
    let n = entries.len();
    let pushed = entries.push((channel, event));
    assert(set_in_row(entries, channel, event) == pushed);
    assert forall|k: int| 0 <= k < n implies (#[trigger] pushed[k]).0 != channel by {
        assert(pushed[k] == entries[k]);
        if entries[k].0 == channel {
            assert(has_channel(entries, channel));
        }
    }
    lemma_first_on(pushed, channel, n as int);
    assert(pushed.update(n as int, pushed.last()).drop_last() =~= entries);
}

/// Whether no row of `rows` holds two events on one channel.
spec fn rows_unique(rows: Seq<Row>) -> bool {
    forall|row: int| 0 <= row < rows.len() ==> unique_channels(#[trigger] rows[row]@)
}

pub struct Pattern {
    rows: Vec<Row>,
}

impl Pattern {
    #[verifier::type_invariant]
    spec fn inv(self) -> bool {
        rows_unique(self.rows@)
    }

    /// The number of rows.
    pub closed spec fn rows_len(&self) -> int {
        self.rows@.len() as int
    }

    /// The entries of row `row`, in storage order.
    pub closed spec fn entries(&self, row: int) -> Seq<(u8, Event)> {
        self.rows@[row]@
    }

    /// The event on `channel` in row `row`, if there is one.
    pub open spec fn event_at(&self, row: int, channel: u8) -> Option<Event> {
        entry_of(self.entries(row), channel)
    }

    /// What every pattern satisfies: no row holds two events on one channel.
    pub open spec fn wf(&self) -> bool {
        forall|row: int| 0 <= row < self.rows_len() ==> unique_channels(#[trigger] self.entries(row))
    }

    /// No row of the pattern holds two events on one channel.
    pub fn get_wf(&self)
        ensures
            self.wf(),
    {
        proof {
            use_type_invariant(self);
        }
    }

    /// A pattern of `row_count` empty rows.
    pub fn new(row_count: usize) -> (r: Self)
        ensures
            r.wf(),
            r.rows_len() == row_count,
            forall|row: int| 0 <= row < row_count ==> #[trigger] r.entries(row) == Seq::<(u8, Event)>::empty(),
            forall|row: int, channel: u8| 0 <= row < row_count ==> r.event_at(row, channel) is None,
    {
        let mut rows: Vec<Row> = Vec::with_capacity(row_count);
        let mut i: usize = 0;
        while i < row_count
            invariant
                i <= row_count,
                rows@.len() == i,
                forall|k: int| 0 <= k < i ==> (#[trigger] rows@[k])@.len() == 0,
            decreases row_count - i,
        {
            rows.push(Vec::new());
            i += 1;
        }
        assert(rows_unique(rows@));
        let r = Self { rows };
        assert forall|row: int| 0 <= row < row_count implies #[trigger] r.entries(row) == Seq::<(u8, Event)>::empty() by {
            assert(r.entries(row).len() == 0);
        }
        assert forall|row: int, channel: u8| 0 <= row < row_count implies r.event_at(row, channel) is None by {
            assert(r.entries(row).len() == 0);
        }
        r
    }

    pub fn row_count(&self) -> (r: usize)
        ensures
            r == self.rows_len(),
    {
        self.rows.len()
    }

    /// The event on `channel` in row `row`; the row must exist.
    pub fn get_event(&self, row: usize, channel: u8) -> (r: Option<Event>)
        requires
            row < self.rows_len(),
        ensures
            r == self.event_at(row as int, channel),
    {
        proof {
            use_type_invariant(self);
        }
        let entries = &self.rows[row];
        assert(unique_channels(self.entries(row as int)));
        let mut i: usize = 0;
        while i < entries.len()
            invariant
                i <= entries@.len(),
                entries@ == self.entries(row as int),
                unique_channels(entries@),
                forall|k: int| 0 <= k < i ==> (#[trigger] entries@[k]).0 != channel,
            decreases entries@.len() - i,
        {
            if entries[i].0 == channel {
                proof {
                    lemma_entry_of_index(entries@, i as int);
                }
                return Some(entries[i].1);
            }
            i += 1;
        }
        None
    }

    /// Cuts the pattern to `new_len` rows, or adds empty rows up to it; the rows that stay
    /// keep their entries in order.
    pub fn set_length(&mut self, new_len: usize)
        ensures
            final(self).wf(),
            final(self).rows_len() == new_len,
            forall|row: int|
                0 <= row < new_len ==> #[trigger] final(self).entries(row) == if row < old(self).rows_len() {
                    old(self).entries(row)
                } else {
                    Seq::<(u8, Event)>::empty()
                },
            forall|row: int, channel: u8|
                0 <= row < new_len ==> #[trigger] final(self).event_at(row, channel) == if row < old(self).rows_len() {
                    old(self).event_at(row, channel)
                } else {
                    None
                },
    {
        proof {
            use_type_invariant(&*self);
        }
        let mut rows: Vec<Row> = Vec::new();
        std::mem::swap(&mut rows, &mut self.rows);
        let len = rows.len();
        if new_len < len {
            rows.truncate(new_len);
        } else if new_len > len {
            let mut i = len;
            while i < new_len
                invariant
                    len <= i <= new_len,
                    rows@.len() == i,
                    forall|k: int| 0 <= k < len ==> #[trigger] rows@[k] == old(self).rows@[k],
                    forall|k: int| len <= k < i ==> (#[trigger] rows@[k])@.len() == 0,
                decreases new_len - i,
            {
                rows.push(Vec::new());
                i += 1;
            }
        }
        assert(forall|k: int| 0 <= k < new_len && k < len ==> #[trigger] rows@[k] == old(self).rows@[k]);
        assert forall|row: int| 0 <= row < rows@.len() implies unique_channels(#[trigger] rows@[row]@) by {
            if row < len {
                assert(rows@[row]@ == old(self).entries(row));
            } else {
                assert(rows@[row]@.len() == 0);
            }
        }
        self.rows = rows;
        assert forall|row: int| 0 <= row < new_len implies #[trigger] self.entries(row) == if row < old(self).rows_len() {
            old(self).entries(row)
        } else {
            Seq::<(u8, Event)>::empty()
        } by {
            if row >= len {
                assert(self.entries(row).len() == 0);
            }
        }
        assert forall|row: int, channel: u8| 0 <= row < new_len implies #[trigger] self.event_at(row, channel) == if row
            < old(self).rows_len() {
            old(self).event_at(row, channel)
        } else {
            None
        } by {
            if row < len {
                assert(self.entries(row) == old(self).entries(row));
            } else {
                assert(self.entries(row).len() == 0);
            }
        }
    }

    /// Puts `event` on `channel` in row `row`: the entry on that channel is replaced in
    /// place, or the new entry goes to the end of the row; the row must exist.
    pub fn set_event(&mut self, row: usize, channel: u8, event: Event)
        requires
            row < old(self).rows_len(),
        ensures
            final(self).wf(),
            final(self).rows_len() == old(self).rows_len(),
            final(self).entries(row as int) == set_in_row(old(self).entries(row as int), channel, event),
            forall|r: int| 0 <= r < old(self).rows_len() && r != row ==> #[trigger] final(self).entries(r) == old(self).entries(r),
            forall|r: int, c: u8|
                0 <= r < old(self).rows_len() ==> #[trigger] final(self).event_at(r, c) == if r == row && c == channel {
                    Some(event)
                } else {
                    old(self).event_at(r, c)
                },
    {
        proof {
            use_type_invariant(&*self);
        }
        let mut rows: Vec<Row> = Vec::new();
        std::mem::swap(&mut rows, &mut self.rows);
        let mut entries = rows.remove(row);
        assert(unique_channels(old(self).entries(row as int)));
        let ghost old_entries = entries@;
        let mut i: usize = 0;
        let mut position: Option<usize> = None;
        while i < entries.len()
            invariant_except_break
                position is None,
                i <= entries@.len(),
                entries@ == old_entries,
                forall|k: int| 0 <= k < i ==> (#[trigger] entries@[k]).0 != channel,
            ensures
                entries@ == old_entries,
                position matches Some(p) ==> is_first_on(entries@, channel, p as int),
                position is None ==> forall|k: int| 0 <= k < entries@.len() ==> (#[trigger] entries@[k]).0 != channel,
            decreases entries@.len() - i,
        {
            if entries[i].0 == channel {
                position = Some(i);
                break;
            }
            i += 1;
        }
        let found = position.is_some();
        match position {
            Some(p) => entries.set(p, (channel, event)),
            None => entries.push((channel, event)),
        }
        let ghost i = match position { Some(p) => p as int, None => 0 };
        let ghost new_entries = entries@;
        proof {
            if found {
                lemma_first_on(old_entries, channel, i);
            } else {
                assert(!has_channel(old_entries, channel));
            }
            assert(new_entries == set_in_row(old_entries, channel, event));
            assert(unique_channels(new_entries)) by {
                assert forall|a: int, b: int|
                    0 <= a < new_entries.len() && 0 <= b < new_entries.len() && a != b implies #[trigger] new_entries[a].0
                    != #[trigger] new_entries[b].0 by {
                    if !found {
                        if a < old_entries.len() && b < old_entries.len() {
                            assert(new_entries[a] == old_entries[a]);
                            assert(new_entries[b] == old_entries[b]);
                        } else if a < old_entries.len() {
                            assert(new_entries[a] == old_entries[a]);
                        } else {
                            assert(new_entries[b] == old_entries[b]);
                        }
                    } else {
                        if a != i && b != i {
                            assert(new_entries[a] == old_entries[a]);
                            assert(new_entries[b] == old_entries[b]);
                        } else if a == i {
                            assert(new_entries[b] == old_entries[b]);
                            assert(old_entries[i as int].0 == channel);
                        } else {
                            assert(new_entries[a] == old_entries[a]);
                            assert(old_entries[i as int].0 == channel);
                        }
                    }
                }
            }
        }
        let ghost new_row = entries;
        rows.insert(row, entries);
        proof {
            assert(rows@ =~= old(self).rows@.update(row as int, new_row));
            assert forall|r: int| 0 <= r < rows@.len() implies unique_channels(#[trigger] rows@[r]@) by {
                if r != row {
                    assert(rows@[r] == old(self).rows@[r]);
                    assert(rows@[r]@ == old(self).entries(r));
                }
            }
        }
        self.rows = rows;
        proof {
            assert forall|r: int| 0 <= r < old(self).rows_len() && r != row implies #[trigger] self.entries(r) == old(self).entries(r) by {
                assert(self.rows@[r] == old(self).rows@.update(row as int, new_row)[r]);
            }
            assert forall|r: int, c: u8| 0 <= r < old(self).rows_len() implies #[trigger] self.event_at(r, c) == if r == row && c == channel {
                Some(event)
            } else {
                old(self).event_at(r, c)
            } by {
                if r != row {
                    assert(self.rows@[r] == old(self).rows@.update(row as int, new_row)[r]);
                    assert(self.entries(r) == old(self).entries(r));
                } else if c == channel {
                    if found {
                        lemma_entry_of_index(new_entries, i as int);
                    } else {
                        lemma_entry_of_index(new_entries, old_entries.len() as int);
                    }
                } else {
                    if has_channel(old_entries, c) {
                        let k = choose|k: int| 0 <= k < old_entries.len() && #[trigger] old_entries[k].0 == c;
                        lemma_entry_of_index(old_entries, k);
                        assert(new_entries[k] == old_entries[k]);
                        lemma_entry_of_index(new_entries, k);
                    } else {
                        assert(!has_channel(new_entries, c)) by {
                            if has_channel(new_entries, c) {
                                let k = choose|k: int| 0 <= k < new_entries.len() && #[trigger] new_entries[k].0 == c;
                                if k < old_entries.len() && !(found && k == i) {
                                    assert(new_entries[k] == old_entries[k]);
                                }
                            }
                        }
                    }
                }
            }
        }
    }

    /// Removes the event on `channel` in row `row`: the last entry of the row takes its
    /// place; a row without an event on `channel` stays as it is. The row must exist.
    pub fn remove_event(&mut self, row: usize, channel: u8)
        requires
            row < old(self).rows_len(),
        ensures
            final(self).wf(),
            final(self).rows_len() == old(self).rows_len(),
            final(self).entries(row as int) == remove_from_row(old(self).entries(row as int), channel),
            forall|r: int| 0 <= r < old(self).rows_len() && r != row ==> #[trigger] final(self).entries(r) == old(self).entries(r),
            forall|r: int, c: u8|
                0 <= r < old(self).rows_len() ==> #[trigger] final(self).event_at(r, c) == if r == row && c == channel {
                    None
                } else {
                    old(self).event_at(r, c)
                },
    {
        proof {
            use_type_invariant(&*self);
        }
        let mut rows: Vec<Row> = Vec::new();
        std::mem::swap(&mut rows, &mut self.rows);
        let mut entries = rows.remove(row);
        assert(unique_channels(old(self).entries(row as int)));
        let ghost old_entries = entries@;
        let mut i: usize = 0;
        let mut position: Option<usize> = None;
        while i < entries.len()
            invariant_except_break
                position is None,
                i <= entries@.len(),
                entries@ == old_entries,
                forall|k: int| 0 <= k < i ==> (#[trigger] entries@[k]).0 != channel,
            ensures
                entries@ == old_entries,
                position matches Some(p) ==> is_first_on(entries@, channel, p as int),
                position is None ==> forall|k: int| 0 <= k < entries@.len() ==> (#[trigger] entries@[k]).0 != channel,
            decreases entries@.len() - i,
        {
            if entries[i].0 == channel {
                position = Some(i);
                break;
            }
            i += 1;
        }
        if let Some(p) = position {
            let _ = entries.swap_remove(p);
        }
        let ghost new_entries = entries@;
        proof {
            match position {
                Some(p) => {
                    lemma_first_on(old_entries, channel, p as int);
                    lemma_swap_remove(old_entries, p as int, channel);
                },
                None => {
                    assert(!has_channel(old_entries, channel));
                },
            }
            assert(new_entries == remove_from_row(old_entries, channel));
        }
        let ghost new_row = entries;
        rows.insert(row, entries);
        proof {
            assert(rows@ =~= old(self).rows@.update(row as int, new_row));
            assert forall|r: int| 0 <= r < rows@.len() implies unique_channels(#[trigger] rows@[r]@) by {
                if r != row {
                    assert(rows@[r] == old(self).rows@[r]);
                    assert(rows@[r]@ == old(self).entries(r));
                }
            }
        }
        self.rows = rows;
        proof {
            assert forall|r: int| 0 <= r < old(self).rows_len() && r != row implies #[trigger] self.entries(r) == old(self).entries(r) by {
                assert(self.rows@[r] == old(self).rows@.update(row as int, new_row)[r]);
            }
            assert forall|r: int, c: u8| 0 <= r < old(self).rows_len() implies #[trigger] self.event_at(r, c) == if r == row && c == channel {
                None
            } else {
                old(self).event_at(r, c)
            } by {
                if r != row {
                    assert(self.rows@[r] == old(self).rows@.update(row as int, new_row)[r]);
                    assert(self.entries(r) == old(self).entries(r));
                } else if position is None && c == channel {
                    assert(!has_channel(new_entries, channel));
                }
            }
        }
    }
}

impl Clone for Pattern {
    /// A copy of the pattern, row for row and entry for entry.
    fn clone(&self) -> (r: Self)
        ensures
            r.rows_len() == self.rows_len(),
            forall|row: int| 0 <= row < self.rows_len() ==> #[trigger] r.entries(row) == self.entries(row),
    {
        proof {
            use_type_invariant(self);
        }
        let n = self.rows.len();
        let mut rows: Vec<Row> = Vec::with_capacity(n);
        let mut i: usize = 0;
        while i < n
            invariant
                n == self.rows_len(),
                i <= n,
                rows@.len() == i,
                forall|k: int| 0 <= k < i ==> (#[trigger] rows@[k])@ == self.entries(k),
            decreases n - i,
        {
            let source = &self.rows[i];
            let mut copy: Row = Vec::with_capacity(source.len());
            let mut j: usize = 0;
            while j < source.len()
                invariant
                    j <= source@.len(),
                    copy@ == source@.take(j as int),
                decreases source@.len() - j,
            {
                copy.push(source[j]);
                j += 1;
                proof {
                    assert(copy@ =~= source@.take(j as int));
                }
            }
            proof {
                assert(copy@ =~= source@);
            }
            rows.push(copy);
            i += 1;
        }
        proof {
            assert forall|row: int| 0 <= row < rows@.len() implies unique_channels(#[trigger] rows@[row]@) by {
                assert(rows@[row]@ == self.entries(row));
            }
        }
        let r = Pattern { rows };
        proof {
            assert forall|row: int| 0 <= row < self.rows_len() implies #[trigger] r.entries(row) == self.entries(row) by {
                assert(r.rows@[row]@ == self.entries(row));
            }
        }
        r
    }
}

/// Removing the entry at `p`, on `channel`, by moving the last entry into its place keeps
/// the channels of the row unique, leaves no entry on `channel` and keeps all others.
pub proof fn lemma_swap_remove(entries: Seq<(u8, Event)>, p: int, channel: u8)
    requires
        unique_channels(entries),
        0 <= p < entries.len(),
        entries[p].0 == channel,
    ensures
        ({
            let left = entries.update(p, entries.last()).drop_last();
            &&& unique_channels(left)
            &&& !has_channel(left, channel)
            &&& forall|c: u8| c != channel ==> #[trigger] entry_of(left, c) == entry_of(entries, c)
        }),
{
    let n = entries.len();
    let left = entries.update(p, entries.last()).drop_last();
    assert forall|k: int| 0 <= k < left.len() implies #[trigger] left[k] == entries[if k == p { n - 1 } else { k }] by {}
    assert forall|a: int, b: int|
        0 <= a < left.len() && 0 <= b < left.len() && a != b implies #[trigger] left[a].0 != #[trigger] left[b].0 by {
        assert(left[a] == entries[if a == p { n - 1 } else { a }]);
        assert(left[b] == entries[if b == p { n - 1 } else { b }]);
    }
    if has_channel(left, channel) {
        let k = choose|k: int| 0 <= k < left.len() && #[trigger] left[k].0 == channel;
        assert(left[k] == entries[if k == p { n - 1 } else { k }]);
        assert(false);
    }
    assert forall|c: u8| c != channel implies #[trigger] entry_of(left, c) == entry_of(entries, c) by {
        if has_channel(entries, c) {
            let j = choose|j: int| 0 <= j < entries.len() && #[trigger] entries[j].0 == c;
            let k = if j == n - 1 { p } else { j };
            assert(left[k] == entries[if k == p { n - 1 } else { k }]);
            lemma_entry_of_index(entries, j);
            lemma_entry_of_index(left, k);
        } else if has_channel(left, c) {
            let k = choose|k: int| 0 <= k < left.len() && #[trigger] left[k].0 == c;
            assert(left[k] == entries[if k == p { n - 1 } else { k }]);
            assert(false);
        }
    }
}

/// A change to a pattern, as the audio side applies it.
pub enum PatternOperation {
    SetLenght(usize),
    SetEvent { row: usize, channel: u8, event: Event },
    RemoveEvent { row: usize, channel: u8 },
}

impl Pattern {
    /// Whether `op` can be applied: changing the length is not supported yet, and the row
    /// of an event must exist.
    pub open spec fn can_apply(&self, op: PatternOperation) -> bool {
        match op {
            PatternOperation::SetLenght(_) => false,
            PatternOperation::SetEvent { row, .. } => row < self.rows_len(),
            PatternOperation::RemoveEvent { row, .. } => row < self.rows_len(),
        }
    }

    /// The event on `channel` in row `row` after `op`.
    pub open spec fn event_after(&self, op: PatternOperation, r: int, c: u8) -> Option<Event> {
        match op {
            PatternOperation::SetEvent { row, channel, event } => if r == row && c == channel {
                Some(event)
            } else {
                self.event_at(r, c)
            },
            PatternOperation::RemoveEvent { row, channel } => if r == row && c == channel {
                None
            } else {
                self.event_at(r, c)
            },
            PatternOperation::SetLenght(_) => self.event_at(r, c),
        }
    }

    /// Applies `op` to the pattern.
    pub fn apply_operation(&mut self, op: &PatternOperation)
        requires
            old(self).can_apply(*op),
        ensures
            final(self).wf(),
            final(self).rows_len() == old(self).rows_len(),
            forall|r: int, c: u8|
                0 <= r < old(self).rows_len() ==> #[trigger] final(self).event_at(r, c) == old(self).event_after(*op, r, c),
    {
        match op {
            PatternOperation::SetLenght(_) => {},
            PatternOperation::SetEvent { row, channel, event } => self.set_event(*row, *channel, *event),
            PatternOperation::RemoveEvent { row, channel } => self.remove_event(*row, *channel),
        }
    }
}

} // verus!
