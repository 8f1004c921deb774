//! The list of samples.
use std::collections::VecDeque;
use vstd::prelude::*;
use vstd::string::*;
use vstd::utf8::is_ascii_chars;

use crate::coordinates::{CharPosition, CharRect};
use crate::draw_buffer::{all_within_rows, lemma_within_rows_concat, DrawBuffer, Paint};
use crate::events::GlobalEvent;
use crate::input::{KeyEvent, Modifiers, NamedKey};
use crate::numbers::{decimal_digits, zero_padded};
use crate::ui::header::HeaderEvent;
use crate::ui::pages::pattern::PatternPageEvent;
use crate::ui::pages::{PageEvent, PageResponse};

verus! {

/// Number of sample slots.
pub const MAX_SAMPLES: usize = 100;

pub enum SampleListEvent {
    /// sample slot `idx` got a sample with this name
    SetSample(u8, String),
    SelectSample(u8),
}

/// The first shown sample after selecting `selected` with `view` shown first: the view
/// moves just enough to show the selected sample among its 35 rows.
pub open spec fn view_after(selected: int, view: int) -> int {
    if selected < view {
        selected
    } else if selected > view + SampleList::SAMPLE_VIEW_COUNT {
        selected - SampleList::SAMPLE_VIEW_COUNT
    } else {
        view
    }
}

pub struct SampleList {
    selected: u8,
    sample_view: u8,
    samples: Vec<Option<String>>,
}

impl SampleList {
    pub const SAMPLE_VIEW_COUNT: u8 = 34;

    #[verifier::type_invariant]
    spec fn inv(self) -> bool {
        &&& self.samples@.len() == MAX_SAMPLES
        &&& self.sample_view <= self.selected <= self.sample_view + Self::SAMPLE_VIEW_COUNT
        &&& self.selected < MAX_SAMPLES
        &&& self.sample_view + Self::SAMPLE_VIEW_COUNT < MAX_SAMPLES
        &&& forall|i: int| 0 <= i < MAX_SAMPLES ==> (#[trigger] self.samples@[i] matches Some(n) ==> is_ascii_chars(n@))
    }

    pub closed spec fn spec_selected(&self) -> int {
        self.selected as int
    }

    pub closed spec fn spec_view(&self) -> int {
        self.sample_view as int
    }

    /// The name of sample `i`, if it has a sample.
    pub closed spec fn name(&self, i: int) -> Option<Seq<char>> {
        match self.samples@[i] {
            Some(n) => Some(n@),
            None => None,
        }
    }

    /// The name the header shows for sample `i`: its name, or nothing.
    pub open spec fn shown_name(&self, i: int) -> Seq<char> {
        match self.name(i) {
            Some(n) => n,
            None => Seq::empty(),
        }
    }

    /// What every sample list satisfies: the selected sample is among the 35 shown ones,
    /// all inside the 100 slots.
    pub open spec fn wf(&self) -> bool {
        &&& 0 <= self.spec_view() <= self.spec_selected() <= self.spec_view() + 34
        &&& self.spec_view() + 34 < MAX_SAMPLES
        &&& forall|i: int| 0 <= i < MAX_SAMPLES ==> is_ascii_chars(#[trigger] self.shown_name(i))
    }

    /// No samples, the first one selected.
    pub fn new() -> (r: Self)
        ensures
            r.wf(),
            r.spec_selected() == 0,
            r.spec_view() == 0,
            forall|i: int| 0 <= i < MAX_SAMPLES ==> #[trigger] r.name(i) is None,
    {
        let mut samples: Vec<Option<String>> = Vec::with_capacity(MAX_SAMPLES);
        let mut i: usize = 0;
        while i < MAX_SAMPLES
            invariant
                i <= MAX_SAMPLES,
                samples@.len() == i,
                forall|k: int| 0 <= k < i ==> #[trigger] samples@[k] is None,
            decreases MAX_SAMPLES - i,
        {
            samples.push(None);
            i += 1;
        }
        Self { selected: 0, samples, sample_view: 0 }
    }

    fn select_sample(&mut self, selected: u8)
        requires
            selected < MAX_SAMPLES,
        ensures
            final(self).spec_selected() == selected,
            final(self).spec_view() == view_after(selected as int, old(self).spec_view()),
            forall|i: int| 0 <= i < MAX_SAMPLES ==> #[trigger] final(self).name(i) == old(self).name(i),
    {
        proof {
            use_type_invariant(&*self);
        }
        let view = if selected < self.sample_view {
            selected
        } else if selected > self.sample_view + Self::SAMPLE_VIEW_COUNT {
            selected - Self::SAMPLE_VIEW_COUNT
        } else {
            self.sample_view
        };
        let mut taken = SampleList::new();
        std::mem::swap(self, &mut taken);
        let SampleList { samples, .. } = taken;
        *self = SampleList { selected, sample_view: view, samples };
    }

    /// The event that tells the header the selected sample and its name.
    pub open spec fn header_event_ok(&self, event: GlobalEvent) -> bool {
        event matches GlobalEvent::Header(HeaderEvent::SetSample(i, n)) && i == self.spec_selected() && n@
            == self.shown_name(self.spec_selected())
    }

    fn send_to_header(&self, events: &mut VecDeque<GlobalEvent>)
        ensures
            final(events)@.len() == old(events)@.len() + 1,
            final(events)@.drop_last() == old(events)@,
            self.header_event_ok(final(events)@.last()),
    {
        proof {
            use_type_invariant(self);
        }
        let name = match &self.samples[self.selected as usize] {
            Some(n) => n.clone(),
            None => String::new(),
        };
        events.push_back(GlobalEvent::Header(HeaderEvent::SetSample(self.selected, name)));
        proof {
            assert(events@.drop_last() =~= old(events)@);
        }
    }

    fn send_to_pattern(&self, events: &mut VecDeque<GlobalEvent>)
        ensures
            final(events)@ == old(events)@.push(
                GlobalEvent::PageEvent(PageEvent::Pattern(PatternPageEvent::SetSampleInstr(self.spec_selected() as u8))),
            ),
    {
        events.push_back(GlobalEvent::PageEvent(PageEvent::Pattern(PatternPageEvent::SetSampleInstr(self.selected))));
    }

    /// Selecting a sample tells the header; a new sample is stored, and the header learns
    /// of it when it is the selected one. Names must be ASCII, as they are drawn.
    pub fn process_event(&mut self, event: SampleListEvent, events: &mut VecDeque<GlobalEvent>) -> (r: PageResponse)
        requires
            match event {
                SampleListEvent::SelectSample(s) => s < MAX_SAMPLES,
                SampleListEvent::SetSample(idx, name) => idx < MAX_SAMPLES && is_ascii_chars(name@),
            },
        ensures
            r == PageResponse::RequestRedraw,
            final(self).wf(),
            match event {
                SampleListEvent::SelectSample(s) => {
                    &&& final(self).spec_selected() == s
                    &&& final(self).spec_view() == view_after(s as int, old(self).spec_view())
                    &&& forall|i: int| 0 <= i < MAX_SAMPLES ==> #[trigger] final(self).name(i) == old(self).name(i)
                    &&& final(events)@.len() == old(events)@.len() + 1
                    &&& final(events)@.drop_last() == old(events)@
                    &&& final(self).header_event_ok(final(events)@.last())
                },
                SampleListEvent::SetSample(idx, name) => {
                    &&& final(self).spec_selected() == old(self).spec_selected()
                    &&& final(self).spec_view() == old(self).spec_view()
                    &&& forall|i: int|
                        0 <= i < MAX_SAMPLES ==> #[trigger] final(self).name(i) == if i == idx {
                            Some(name@)
                        } else {
                            old(self).name(i)
                        }
                    &&& if idx == old(self).spec_selected() {
                        final(events)@.len() == old(events)@.len() + 1 && final(events)@.drop_last() == old(events)@
                            && final(self).header_event_ok(final(events)@.last())
                    } else {
                        final(events)@ == old(events)@
                    }
                },
            },
    {
        proof {
            use_type_invariant(&*self);
        }
        match event {
            // from the pattern page, so it is not sent back there
            SampleListEvent::SelectSample(s) => {
                self.select_sample(s);
                self.send_to_header(events);
            },
            SampleListEvent::SetSample(idx, name) => {
                let mut taken = SampleList::new();
                std::mem::swap(self, &mut taken);
                let SampleList { selected, sample_view, samples: mut stored } = taken;
                stored.set(idx as usize, Some(name));
                *self = SampleList { selected, sample_view, samples: stored };
                if self.selected == idx {
                    self.send_to_header(events);
                }
            },
        }
        self.get_wf();
        PageResponse::RequestRedraw
    }

    /// Up and down select the neighbouring sample and tell the header and the pattern
    /// editor; enter asks for a file to load into the selected slot.
    pub open spec fn key_effect(&self, key_event: KeyEvent, modifiers: Modifiers) -> (int, PageResponse) {
        let s = self.spec_selected();
        let key = key_event.logical_key;
        if !key_event.pressed {
            (s, PageResponse::Nothing)
        } else if key.is_named(NamedKey::ArrowUp) && modifiers.spec_is_empty() && s > 0 {
            (s - 1, PageResponse::RequestRedraw)
        } else if key.is_named(NamedKey::ArrowDown) && modifiers.spec_is_empty() && s + 1 < 100 {
            (s + 1, PageResponse::RequestRedraw)
        } else {
            (s, PageResponse::Nothing)
        }
    }

    pub fn process_key_event(&mut self, modifiers: &Modifiers, key_event: &KeyEvent, events: &mut VecDeque<GlobalEvent>) -> (r: PageResponse)
        ensures
            (final(self).spec_selected(), r) == old(self).key_effect(*key_event, *modifiers),
            final(self).wf(),
            forall|i: int| 0 <= i < MAX_SAMPLES ==> #[trigger] final(self).name(i) == old(self).name(i),
            r == PageResponse::RequestRedraw ==> {
                &&& final(self).spec_view() == view_after(final(self).spec_selected(), old(self).spec_view())
                &&& final(events)@.len() == old(events)@.len() + 2
                &&& final(events)@.take(old(events)@.len() as int) == old(events)@
                &&& final(self).header_event_ok(final(events)@[old(events)@.len() as int])
                &&& final(events)@.last() == GlobalEvent::PageEvent(
                    PageEvent::Pattern(PatternPageEvent::SetSampleInstr(final(self).spec_selected() as u8)),
                )
            },
            r == PageResponse::Nothing ==> final(self).spec_view() == old(self).spec_view(),
            r == PageResponse::Nothing ==> final(events)@ == if key_event.pressed && key_event.logical_key.is_named(
                NamedKey::Enter,
            ) && modifiers.spec_is_empty() {
                old(events)@.push(GlobalEvent::PickSample(old(self).spec_selected() as u8))
            } else {
                old(events)@
            },
    {
        proof {
            use_type_invariant(&*self);
        }
        let key = &key_event.logical_key;
        let response = if !key_event.pressed {
            PageResponse::Nothing
        } else if key.named(NamedKey::ArrowUp) && modifiers.is_empty() && self.selected > 0 {
            self.select_sample(self.selected - 1);
            self.send_to_header(events);
            let ghost mid = events@;
            self.send_to_pattern(events);
            proof {
                assert(events@.take(old(events)@.len() as int) =~= old(events)@);
                assert(events@[old(events)@.len() as int] == mid.last());
            }
            PageResponse::RequestRedraw
        } else if key.named(NamedKey::ArrowDown) && modifiers.is_empty() && self.selected + 1 < 100 {
            self.select_sample(self.selected + 1);
            self.send_to_header(events);
            let ghost mid = events@;
            self.send_to_pattern(events);
            proof {
                assert(events@.take(old(events)@.len() as int) =~= old(events)@);
                assert(events@[old(events)@.len() as int] == mid.last());
            }
            PageResponse::RequestRedraw
        } else {
            if key.named(NamedKey::Enter) && modifiers.is_empty() {
                // the file is picked and decoded outside, the sample then arrives as an event
                events.push_back(GlobalEvent::PickSample(self.selected));
            }
            PageResponse::Nothing
        };
        self.get_wf();
        response
    }

    /// What drawing row `i` of the list does: the number of its sample, then its name in
    /// 25 cells, highlighted when selected.
    pub open spec fn row_cmds(&self, i: int) -> Seq<Paint> {
        let n = self.spec_view() + i;
        seq![
            Paint::Text { text: decimal_digits(n as nat, 2), x: 2, y: 13 + i, fg: 0, bg: 2 },
            Paint::TextFit {
                text: self.shown_name(n),
                x: 5,
                y: 13 + i,
                width: 24,
                fg: 6,
                bg: if self.spec_selected() == n { 14u8 } else { 0u8 },
            },
        ]
    }

    /// What drawing the first `n` rows does.
    pub open spec fn rows_cmds(&self, n: int) -> Seq<Paint>
        decreases n,
    {
        if n <= 0 {
            Seq::empty()
        } else {
            self.rows_cmds(n - 1) + self.row_cmds(n - 1)
        }
    }

    /// What drawing the page does: the 35 shown samples.
    pub open spec fn paint_cmds(&self) -> Seq<Paint> {
        self.rows_cmds(35)
    }

    pub fn draw(&self, buffer: &mut DrawBuffer)
        requires
            old(buffer).wf(),
        ensures
            final(buffer).painted(old(buffer), self.paint_cmds()),
    {
        proof {
            use_type_invariant(self);
            DrawBuffer::lemma_painted_nothing(buffer);
        }
        let ghost b0 = *buffer;
        let mut i: usize = 0;
        while i <= Self::SAMPLE_VIEW_COUNT as usize
            invariant
                i <= 35,
                self.spec_view() + 34 < MAX_SAMPLES,
                self.samples@.len() == MAX_SAMPLES,
                forall|k: int| 0 <= k < MAX_SAMPLES ==> (#[trigger] self.samples@[k] matches Some(n) ==> is_ascii_chars(n@)),
                buffer.painted(&b0, self.rows_cmds(i as int)),
            decreases 35 - i,
        {
            let ghost before = *buffer;
            let n = self.sample_view as usize + i;
            let number = zero_padded(n as u32, 2);
            buffer.draw_string(number.as_str(), CharPosition::new(2, 13 + i), 0, 2);
            let ghost mid = *buffer;
            let empty = String::new();
            let name = match &self.samples[n] {
                Some(name) => name.as_str(),
                None => empty.as_str(),
            };
            let background_color: u8 = if self.selected as usize == n {
                14
            } else {
                0
            };
            buffer.draw_string_length(name, CharPosition::new(5, 13 + i), 24, 6, background_color);
            proof {
                let c = self.row_cmds(i as int);
                DrawBuffer::lemma_painted_then(&before, &mid, buffer, seq![c[0]], seq![c[1]]);
                assert(seq![c[0]] + seq![c[1]] =~= c);
                DrawBuffer::lemma_painted_then(&b0, &before, buffer, self.rows_cmds(i as int), c);
            }
            i += 1;
        }
    }

    /// Fills the page area with the background colour.
    pub fn draw_constant(&self, buffer: &mut DrawBuffer)
        requires
            old(buffer).wf(),
        ensures
            final(buffer).painted(old(buffer), seq![Paint::Rect { color: 2, top: 12, bot: 49, left: 0, right: 79 }]),
    {
        buffer.draw_rect(2, CharRect::page_area());
    }
}


/// Selecting any sample slot keeps it among the 35 rows shown, and the rows shown stay
/// within the slots.
pub proof fn lemma_selected_shown(selected: int, view: int)
    requires
        0 <= selected < MAX_SAMPLES,
        0 <= view,
        view + SampleList::SAMPLE_VIEW_COUNT < MAX_SAMPLES,
    ensures
        view_after(selected, view) <= selected <= view_after(selected, view) + SampleList::SAMPLE_VIEW_COUNT,
        0 <= view_after(selected, view),
        view_after(selected, view) + SampleList::SAMPLE_VIEW_COUNT < MAX_SAMPLES,
{
}


impl SampleList {
    proof fn lemma_rows_in_page_area(&self, n: int)
        requires
            n <= 35,
        ensures
            all_within_rows(self.rows_cmds(n), 12, 49),
        decreases n,
    {
        if n > 0 {
            self.lemma_rows_in_page_area(n - 1);
            lemma_within_rows_concat(self.rows_cmds(n - 1), self.row_cmds(n - 1), 12, 49);
        }
    }

    /// The sample list draws only into the page area, rows 12 to 49.
    pub proof fn lemma_in_page_area(&self)
        ensures
            all_within_rows(self.paint_cmds(), 12, 49),
    {
        self.lemma_rows_in_page_area(35);
    }

    /// Whether the list is well formed.
    pub fn get_wf(&self)
        ensures
            self.wf(),
    {
        proof {
            use_type_invariant(self);
            assert forall|i: int| 0 <= i < MAX_SAMPLES implies is_ascii_chars(#[trigger] self.shown_name(i)) by {
                if self.samples@[i] is None {
                    assert(self.shown_name(i) =~= Seq::<char>::empty());
                }
            }
        }
    }
}

} // verus!
