//! The pages of the tracker: one of them fills the window below the header.
pub mod help_page;
pub mod order_list;
pub mod pattern;
pub mod sample_list;
pub mod song_directory_config_page;
use std::collections::VecDeque;
use vstd::prelude::*;
use vstd::string::*;
use vstd::utf8::is_ascii_chars;

use crate::coordinates::{CharPosition, CharRect};
use crate::draw_buffer::{all_within_rows, lemma_paint_outside_rows, paint, DrawBuffer, Paint};
use crate::events::{keeps_header_drawable, GlobalEvent};
use crate::ui::header::HeaderEvent;
use crate::input::{KeyEvent, Modifiers, NamedKey};
use crate::ui::pages::help_page::HelpPage;
use crate::ui::pages::order_list::{Mode, OrderListPage, OrderListPageEvent};
use crate::ui::pages::pattern::{notes_valid, PatternPage, PatternPageEvent};
use crate::ui::pages::sample_list::{view_after, SampleList, SampleListEvent, MAX_SAMPLES};
use crate::ui::pages::song_directory_config_page::{SDCChange, SongDirectoryConfigPage};
use crate::ui::widgets::StandardResponse;

verus! {

#[derive(Debug, Clone, Copy, PartialEq, Eq, Structural)]
pub enum PageResponse {
    RequestRedraw,
    Nothing,
}

#[derive(Debug, Clone, Copy, PartialEq, Eq, Structural)]
pub enum PagesEnum {
    Help,
    SongDirectoryConfig,
    Pattern,
    OrderList,
    SampleList,
}

/// An event for one page.
pub enum PageEvent {
    Sdc(SDCChange),
    Pattern(PatternPageEvent),
    OrderList(OrderListPageEvent),
    SampleList(SampleListEvent),
}

impl PageEvent {
    pub open spec fn spec_get_page(&self) -> PagesEnum {
        match self {
            PageEvent::Sdc(_) => PagesEnum::SongDirectoryConfig,
            PageEvent::Pattern(_) => PagesEnum::Pattern,
            PageEvent::OrderList(_) => PagesEnum::OrderList,
            PageEvent::SampleList(_) => PagesEnum::SampleList,
        }
    }

    /// The page the event is for.
    pub fn get_page(&self) -> (r: PagesEnum)
        ensures
            r == self.spec_get_page(),
    {
        match self {
            PageEvent::Sdc(_) => PagesEnum::SongDirectoryConfig,
            PageEvent::Pattern(_) => PagesEnum::Pattern,
            PageEvent::OrderList(_) => PagesEnum::OrderList,
            PageEvent::SampleList(_) => PagesEnum::SampleList,
        }
    }
}

/// The page response to a widget's response: a change of focus selects that widget and
/// asks for a redraw.
pub open spec fn page_response(standard: StandardResponse) -> PageResponse {
    match standard {
        StandardResponse::SwitchFocus(_) => PageResponse::RequestRedraw,
        StandardResponse::RequestRedraw => PageResponse::RequestRedraw,
        StandardResponse::Nothing => PageResponse::Nothing,
    }
}

/// The widget selected after a widget's response.
pub open spec fn focus_after(standard: StandardResponse, selected: usize) -> usize {
    match standard {
        StandardResponse::SwitchFocus(next) => next,
        _ => selected,
    }
}

impl StandardResponse {
    /// Turns a widget's response into the page's, moving `selected` on a change of focus.
    pub fn to_page_resp(self, selected: &mut usize) -> (r: PageResponse)
        ensures
            r == page_response(self),
            *final(selected) == focus_after(self, *old(selected)),
    {
        match self {
            StandardResponse::SwitchFocus(next) => {
                *selected = next;
                PageResponse::RequestRedraw
            },
            StandardResponse::RequestRedraw => PageResponse::RequestRedraw,
            StandardResponse::Nothing => PageResponse::Nothing,
        }
    }
}

/// The glyph that fills the title row left and right of the title: a dotted line.
pub open spec fn dotted_glyph() -> Seq<u8> {
    seq![0, 0, 0, 0b01010101, 0, 0, 0, 0]
}

fn dotted() -> (r: [u8; 8])
    ensures
        r@ == dotted_glyph(),
{
    [0, 0, 0, 0b01010101, 0, 0, 0, 0]
}

/// The title of a page; the order list's names its mode.
pub open spec fn title(page: PagesEnum, mode: Mode) -> Seq<char> {
    match page {
        PagesEnum::Help => "Help"@,
        PagesEnum::SongDirectoryConfig => "Song Variables & Directory Configuration (F12)"@,
        PagesEnum::Pattern => "Pattern Editor (F2)"@,
        PagesEnum::OrderList => match mode {
            Mode::Volume => "Order List and Channel Volume (F11)"@,
            Mode::Panning => "Order List and Panning (F11)"@,
        },
        PagesEnum::SampleList => "Sample List (F3)"@,
    }
}

/// What drawing a title does: the title centred in row 11, a free cell on either side of
/// it, and dotted lines from column 1 to the left cell and from the right cell to column 78.
pub open spec fn title_cmds(title: Seq<char>) -> Seq<Paint> {
    let start = 40 - title.len() / 2;
    let end = start + title.len();
    seq![
        Paint::Text { text: title, x: start, y: 11, fg: 0, bg: 2 },
        Paint::Rect { color: 2, top: 11, bot: 11, left: start - 1, right: start - 1 },
        Paint::Rect { color: 2, top: 11, bot: 11, left: end, right: end },
    ] + Seq::new((start - 2) as nat, |i: int| Paint::Glyph { glyph: dotted_glyph(), x: 1 + i, y: 11, fg: 1, bg: 2 })
        + Seq::new((78 - end) as nat, |i: int| Paint::Glyph { glyph: dotted_glyph(), x: end + 1 + i, y: 11, fg: 1, bg: 2 })
}

/// The page that a function key leads to: F1 help, F2 pattern, F3 sample list, F11 order
/// list, F12 song variables.
pub open spec fn key_target(key_event: KeyEvent) -> Option<PagesEnum> {
    let key = key_event.logical_key;
    if key.is_named(NamedKey::F1) {
        Some(PagesEnum::Help)
    } else if key.is_named(NamedKey::F2) {
        Some(PagesEnum::Pattern)
    } else if key.is_named(NamedKey::F11) {
        Some(PagesEnum::OrderList)
    } else if key.is_named(NamedKey::F12) {
        Some(PagesEnum::SongDirectoryConfig)
    } else if key.is_named(NamedKey::F3) {
        Some(PagesEnum::SampleList)
    } else {
        None
    }
}

/// Whether the pages themselves take the key: a pressed function key that leads to a page,
/// without modifiers.
pub open spec fn is_page_key(key_event: KeyEvent, modifiers: Modifiers) -> bool {
    key_event.pressed && modifiers.spec_is_empty() && key_target(key_event) is Some
}

/// The response of the page that `event` is for.
pub open spec fn page_event_response(event: PageEvent) -> PageResponse {
    match event {
        PageEvent::Sdc(change) => if SongDirectoryConfigPage::change_taken(change) {
            PageResponse::RequestRedraw
        } else {
            PageResponse::Nothing
        },
        PageEvent::Pattern(PatternPageEvent::SetSampleInstr(_)) => PageResponse::Nothing,
        _ => PageResponse::RequestRedraw,
    }
}

pub struct AllPages {
    help: HelpPage,
    song_directory_config: SongDirectoryConfigPage,
    pattern: PatternPage,
    order_list: OrderListPage,
    sample_list: SampleList,
    const_draw_needed: bool,
    current: PagesEnum,
}

impl AllPages {
    pub closed spec fn spec_current(&self) -> PagesEnum {
        self.current
    }

    pub closed spec fn spec_const_draw_needed(&self) -> bool {
        self.const_draw_needed
    }

    pub closed spec fn spec_sdc(&self) -> SongDirectoryConfigPage {
        self.song_directory_config
    }

    pub closed spec fn spec_pattern(&self) -> PatternPage {
        self.pattern
    }

    pub closed spec fn spec_order_list(&self) -> OrderListPage {
        self.order_list
    }

    pub closed spec fn spec_sample_list(&self) -> SampleList {
        self.sample_list
    }

    /// Each page in its first state; the song variables are shown, and the constant parts
    /// still have to be drawn.
    pub fn new() -> (r: Self)
        ensures
            r.spec_current() == PagesEnum::SongDirectoryConfig,
            r.spec_const_draw_needed(),
            r.spec_order_list().spec_mode() == Mode::Panning,
            r.spec_sample_list().spec_selected() == 0,
            r.spec_pattern().spec_index() == 0,
            r.spec_sdc().spec_selected() == SongDirectoryConfigPage::SONG_NAME,
    {
        AllPages {
            help: HelpPage::new(),
            song_directory_config: SongDirectoryConfigPage::new(),
            pattern: PatternPage::new(),
            current: PagesEnum::SongDirectoryConfig,
            order_list: OrderListPage::new(),
            const_draw_needed: true,
            sample_list: SampleList::new(),
        }
    }

    /// What every set of pages satisfies: each page is well formed.
    pub open spec fn wf(&self) -> bool {
        &&& self.spec_sdc().wf()
        &&& self.spec_pattern().wf()
        &&& self.spec_order_list().wf()
        &&& self.spec_sample_list().wf()
    }

    pub fn get_wf(&self)
        ensures
            self.wf(),
    {
        self.song_directory_config.get_wf();
        self.pattern.get_wf();
        self.order_list.get_wf();
        self.sample_list.get_wf();
    }

    /// The title of the current page.
    pub open spec fn spec_title(&self) -> Seq<char> {
        title(self.spec_current(), self.spec_order_list().spec_mode())
    }

    pub fn get_title(&self) -> (r: &'static str)
        ensures
            r@ == self.spec_title(),
            is_ascii(r),
            4 <= r@.len() <= 46,
    {
        proof {
            reveal_strlit("Help");
            reveal_strlit("Song Variables & Directory Configuration (F12)");
            reveal_strlit("Pattern Editor (F2)");
            reveal_strlit("Order List and Channel Volume (F11)");
            reveal_strlit("Order List and Panning (F11)");
            reveal_strlit("Sample List (F3)");
        }
        match self.current {
            PagesEnum::Help => "Help",
            PagesEnum::SongDirectoryConfig => "Song Variables & Directory Configuration (F12)",
            PagesEnum::Pattern => "Pattern Editor (F2)",
            PagesEnum::OrderList => match self.order_list.mode() {
                Mode::Volume => "Order List and Channel Volume (F11)",
                Mode::Panning => "Order List and Panning (F11)",
            },
            PagesEnum::SampleList => "Sample List (F3)",
        }
    }

    /// Shows `next_page`; a page that is shown anew has its constant parts drawn and the
    /// order list starts in panning mode. A redraw is asked for when the page changed.
    pub fn switch_page(&mut self, next_page: PagesEnum) -> (r: PageResponse)
        ensures
            final(self).spec_current() == next_page,
            r == (if next_page != old(self).spec_current() { PageResponse::RequestRedraw } else { PageResponse::Nothing }),
            final(self).spec_const_draw_needed() == (old(self).spec_const_draw_needed() || next_page != old(self).spec_current()),
            final(self).spec_order_list().spec_mode() == if next_page != old(self).spec_current() && next_page == PagesEnum::OrderList {
                Mode::Panning
            } else {
                old(self).spec_order_list().spec_mode()
            },
            final(self).spec_order_list().state() == old(self).spec_order_list().state(),
            final(self).spec_order_list().spec_volume() == old(self).spec_order_list().spec_volume(),
            final(self).spec_order_list().spec_pan() == old(self).spec_order_list().spec_pan(),
            final(self).spec_sdc() == old(self).spec_sdc(),
            final(self).spec_pattern() == old(self).spec_pattern(),
            final(self).spec_sample_list() == old(self).spec_sample_list(),
    {
        if next_page != self.current {
            if next_page == PagesEnum::OrderList {
                self.order_list.reset_mode();
            }
            self.current = next_page;
            self.request_draw_const();
            PageResponse::RequestRedraw
        } else {
            PageResponse::Nothing
        }
    }

    /// The constant parts are drawn again with the next `draw`.
    pub fn request_draw_const(&mut self)
        ensures
            final(self).spec_const_draw_needed(),
            final(self).spec_current() == old(self).spec_current(),
            final(self).spec_sdc() == old(self).spec_sdc(),
            final(self).spec_pattern() == old(self).spec_pattern(),
            final(self).spec_order_list() == old(self).spec_order_list(),
            final(self).spec_sample_list() == old(self).spec_sample_list(),
    {
        self.const_draw_needed = true;
    }

    /// What drawing the current page's constant parts does.
    pub open spec fn page_constant_cmds(&self) -> Seq<Paint> {
        match self.spec_current() {
            PagesEnum::Help => seq![Paint::Rect { color: 2, top: 12, bot: 49, left: 0, right: 79 }],
            PagesEnum::SongDirectoryConfig => SongDirectoryConfigPage::constant_cmds(),
            PagesEnum::Pattern => PatternPage::constant_cmds_n(5),
            PagesEnum::OrderList => OrderListPage::constant_cmds(),
            PagesEnum::SampleList => seq![Paint::Rect { color: 2, top: 12, bot: 49, left: 0, right: 79 }],
        }
    }

    /// What drawing the constant parts does: the title row, then the page's own.
    pub open spec fn constant_cmds(&self) -> Seq<Paint> {
        title_cmds(self.spec_title()) + self.page_constant_cmds()
    }

    /// What drawing the current page does.
    pub open spec fn page_cmds(&self) -> Seq<Paint> {
        match self.spec_current() {
            PagesEnum::Help => Seq::empty(),
            PagesEnum::SongDirectoryConfig => self.spec_sdc().paint_cmds(),
            PagesEnum::Pattern => self.spec_pattern().paint_cmds(),
            PagesEnum::OrderList => self.spec_order_list().paint_cmds(),
            PagesEnum::SampleList => self.spec_sample_list().paint_cmds(),
        }
    }

    /// Draws the constant parts if they are due, then the current page.
    pub fn draw(&mut self, buffer: &mut DrawBuffer)
        requires
            old(buffer).wf(),
        ensures
            final(buffer).painted(
                old(buffer),
                (if old(self).spec_const_draw_needed() { old(self).constant_cmds() } else { Seq::empty() }) + old(self).page_cmds(),
            ),
            !final(self).spec_const_draw_needed(),
            final(self).spec_current() == old(self).spec_current(),
            final(self).spec_sdc() == old(self).spec_sdc(),
            final(self).spec_pattern() == old(self).spec_pattern(),
            final(self).spec_order_list() == old(self).spec_order_list(),
            final(self).spec_sample_list() == old(self).spec_sample_list(),
    {
        let ghost g0 = *buffer;
        let ghost before = *self;
        proof {
            DrawBuffer::lemma_painted_nothing(buffer);
        }
        if self.const_draw_needed {
            self.draw_constant(buffer);
        }
        let ghost g1 = *buffer;
        match self.current {
            PagesEnum::Help => self.help.draw(buffer),
            PagesEnum::SongDirectoryConfig => self.song_directory_config.draw(buffer),
            PagesEnum::Pattern => self.pattern.draw(buffer),
            PagesEnum::OrderList => self.order_list.draw(buffer),
            PagesEnum::SampleList => self.sample_list.draw(buffer),
        }
        proof {
            DrawBuffer::lemma_painted_then(
                &g0,
                &g1,
                buffer,
                if before.spec_const_draw_needed() { before.constant_cmds() } else { Seq::empty() },
                before.page_cmds(),
            );
        }
    }

    /// Draws the title row and the current page's constant parts.
    pub fn draw_constant(&mut self, buffer: &mut DrawBuffer)
        requires
            old(buffer).wf(),
        ensures
            final(buffer).painted(old(buffer), old(self).constant_cmds()),
            !final(self).spec_const_draw_needed(),
            final(self).spec_current() == old(self).spec_current(),
            final(self).spec_sdc() == old(self).spec_sdc(),
            final(self).spec_pattern() == old(self).spec_pattern(),
            final(self).spec_order_list() == old(self).spec_order_list(),
            final(self).spec_sample_list() == old(self).spec_sample_list(),
    {
        let title = self.get_title();
        let len = title.unicode_len();
        let middle: usize = 40;
        let str_start = middle - (len / 2);
        let ghost g0 = *buffer;
        buffer.draw_string(title, CharPosition::new(str_start, 11), 0, 2);
        let ghost g1 = *buffer;
        buffer.draw_rect(2, CharRect::new(11, 11, str_start - 1, str_start - 1));
        let ghost g2 = *buffer;
        buffer.draw_rect(2, CharRect::new(11, 11, str_start + len, str_start + len));
        let ghost g3 = *buffer;
        let ghost head = title_cmds(title@).take(3);
        proof {
            let c = title_cmds(title@);
            DrawBuffer::lemma_painted_then(&g0, &g1, &g2, seq![c[0]], seq![c[1]]);
            DrawBuffer::lemma_painted_then(&g0, &g2, &g3, seq![c[0]] + seq![c[1]], seq![c[2]]);
            assert(seq![c[0]] + seq![c[1]] + seq![c[2]] =~= head);
        }
        let glyph = dotted();
        let mut x: usize = 1;
        while x <= str_start - 2
            invariant
                1 <= x <= str_start - 1,
                17 <= str_start <= 38,
                glyph@ == dotted_glyph(),
                buffer.painted(&g0, head + Seq::new((x - 1) as nat, |i: int| Paint::Glyph { glyph: dotted_glyph(), x: 1 + i, y: 11, fg: 1, bg: 2 })),
            decreases str_start - 1 - x,
        {
            let ghost before = *buffer;
            buffer.draw_char(glyph, CharPosition::new(x, 11), 1, 2);
            proof {
                let left = Seq::new((x - 1) as nat, |i: int| Paint::Glyph { glyph: dotted_glyph(), x: 1 + i, y: 11, fg: 1, bg: 2 });
                DrawBuffer::lemma_painted_then(&g0, &before, buffer, head + left, seq![Paint::Glyph { glyph: dotted_glyph(), x: x as int, y: 11, fg: 1, bg: 2 }]);
                assert(head + left + seq![Paint::Glyph { glyph: dotted_glyph(), x: x as int, y: 11, fg: 1, bg: 2 }] =~= head + Seq::new(x as nat, |i: int| Paint::Glyph { glyph: dotted_glyph(), x: 1 + i, y: 11, fg: 1, bg: 2 }));
            }
            x += 1;
        }
        let ghost left_part = head + Seq::new((str_start - 2) as nat, |i: int| Paint::Glyph { glyph: dotted_glyph(), x: 1 + i, y: 11, fg: 1, bg: 2 });
        let end = str_start + len;
        let mut x: usize = end + 1;
        while x <= 78
            invariant
                end + 1 <= x <= 79,
                end <= 63,
                glyph@ == dotted_glyph(),
                buffer.painted(&g0, left_part + Seq::new((x - end - 1) as nat, |i: int| Paint::Glyph { glyph: dotted_glyph(), x: end + 1 + i, y: 11, fg: 1, bg: 2 })),
            decreases 79 - x,
        {
            let ghost before = *buffer;
            buffer.draw_char(glyph, CharPosition::new(x, 11), 1, 2);
            proof {
                let right = Seq::new((x - end - 1) as nat, |i: int| Paint::Glyph { glyph: dotted_glyph(), x: end + 1 + i, y: 11, fg: 1, bg: 2 });
                DrawBuffer::lemma_painted_then(&g0, &before, buffer, left_part + right, seq![Paint::Glyph { glyph: dotted_glyph(), x: x as int, y: 11, fg: 1, bg: 2 }]);
                assert(left_part + right + seq![Paint::Glyph { glyph: dotted_glyph(), x: x as int, y: 11, fg: 1, bg: 2 }] =~= left_part + Seq::new((x - end) as nat, |i: int| Paint::Glyph { glyph: dotted_glyph(), x: end + 1 + i, y: 11, fg: 1, bg: 2 }));
            }
            x += 1;
        }
        let ghost g4 = *buffer;
        proof {
            assert(title_cmds(title@) =~= left_part + Seq::new((78 - end) as nat, |i: int| Paint::Glyph { glyph: dotted_glyph(), x: end + 1 + i, y: 11, fg: 1, bg: 2 }));
        }
        match self.current {
            PagesEnum::Help => self.help.draw_constant(buffer),
            PagesEnum::SongDirectoryConfig => self.song_directory_config.draw_constant(buffer),
            PagesEnum::Pattern => self.pattern.draw_constant(buffer),
            PagesEnum::OrderList => self.order_list.draw_constant(buffer),
            PagesEnum::SampleList => self.sample_list.draw_constant(buffer),
        }
        proof {
            DrawBuffer::lemma_painted_then(&g0, &g4, buffer, title_cmds(title@), self.page_constant_cmds());
        }
        self.const_draw_needed = false;
    }
    /// The response to a key: a redraw for a function key that switches pages, else what
    /// the current page answers.
    pub open spec fn key_response(&self, key_event: KeyEvent, modifiers: Modifiers) -> PageResponse {
        if is_page_key(key_event, modifiers) {
            PageResponse::RequestRedraw
        } else {
            match self.spec_current() {
                PagesEnum::Help => PageResponse::Nothing,
                PagesEnum::SongDirectoryConfig => page_response(self.spec_sdc().widget_standard(key_event, modifiers)),
                PagesEnum::Pattern => self.spec_pattern().key_step(key_event, modifiers).response,
                PagesEnum::OrderList => self.spec_order_list().key_step(key_event, modifiers).response,
                PagesEnum::SampleList => self.spec_sample_list().key_effect(key_event, modifiers).1,
            }
        }
    }

    /// How the pages are after `key_event`, and the events after it when `before` were
    /// the events before: a function key switches pages or the order list's mode, other
    /// keys change the current page as its own key handling does.
    pub open spec fn key_handled(
        &self,
        after: AllPages,
        key_event: KeyEvent,
        modifiers: Modifiers,
        before: Seq<GlobalEvent>,
        events: Seq<GlobalEvent>,
    ) -> bool {
        if is_page_key(key_event, modifiers) {
            let target = key_target(key_event)->0;
            let toggle = target == PagesEnum::OrderList && self.spec_current() == PagesEnum::OrderList;
            &&& after.spec_current() == target
            &&& after.spec_const_draw_needed() == (self.spec_const_draw_needed() || target != self.spec_current()
                || toggle)
            &&& after.spec_order_list().spec_mode() == if toggle {
                other_mode(self.spec_order_list().spec_mode())
            } else if target != self.spec_current() && target == PagesEnum::OrderList {
                Mode::Panning
            } else {
                self.spec_order_list().spec_mode()
            }
            &&& after.spec_order_list().state() == self.spec_order_list().state()
            &&& after.spec_order_list().spec_volume() == self.spec_order_list().spec_volume()
            &&& after.spec_order_list().spec_pan() == self.spec_order_list().spec_pan()
            &&& after.spec_sdc() == self.spec_sdc()
            &&& after.spec_pattern() == self.spec_pattern()
            &&& after.spec_sample_list() == self.spec_sample_list()
            &&& events == before
        } else {
            &&& after.spec_current() == self.spec_current()
            &&& after.spec_const_draw_needed() == self.spec_const_draw_needed()
            &&& self.spec_current() != PagesEnum::SongDirectoryConfig ==> after.spec_sdc() == self.spec_sdc()
            &&& self.spec_current() != PagesEnum::Pattern ==> after.spec_pattern() == self.spec_pattern()
            &&& self.spec_current() != PagesEnum::OrderList ==> after.spec_order_list() == self.spec_order_list()
            &&& self.spec_current() != PagesEnum::SampleList ==> after.spec_sample_list() == self.spec_sample_list()
            &&& match self.spec_current() {
                PagesEnum::Help => events == before,
                PagesEnum::SongDirectoryConfig => {
                    let sdc = self.spec_sdc();
                    &&& after.spec_sdc().spec_selected() == focus_after(
                        sdc.widget_standard(key_event, modifiers),
                        sdc.spec_selected(),
                    )
                    &&& sdc.spec_selected() == SongDirectoryConfigPage::SONG_NAME ==> {
                        &&& after.spec_sdc().spec_song_name().spec_text() == sdc.spec_song_name().input(key_event, modifiers).text
                        &&& after.spec_sdc().spec_song_name().spec_cursor() == sdc.spec_song_name().input(
                            key_event,
                            modifiers,
                        ).cursor
                        &&& events == before
                    }
                    &&& sdc.selected_slider() matches Some(slider) ==> {
                        &&& after.spec_sdc().selected_slider_of(sdc.spec_selected()).value() == slider.input(
                            key_event,
                            modifiers,
                        ).2
                        &&& sdc.slider_events(slider, key_event, modifiers, before, events)
                    }
                },
                PagesEnum::Pattern => {
                    let page = self.spec_pattern();
                    let step = page.key_step(key_event, modifiers);
                    &&& after.spec_pattern().state() == step.state
                    &&& events == before + step.events
                    &&& after.spec_pattern().spec_index() == page.spec_index()
                    &&& after.spec_pattern().spec_sample_instr() == page.spec_sample_instr()
                    &&& after.spec_pattern().spec_pattern().rows_len() == page.spec_pattern().rows_len()
                    &&& forall|r: int, c: u8|
                        0 <= r < page.spec_pattern().rows_len() ==> #[trigger] after.spec_pattern().spec_pattern().event_at(r, c)
                            == match step.edit {
                            Some((row, ch, e)) => if r == row && c == ch {
                                Some(e)
                            } else {
                                page.spec_pattern().event_at(r, c)
                            },
                            None => page.spec_pattern().event_at(r, c),
                        }
                },
                PagesEnum::OrderList => {
                    let page = self.spec_order_list();
                    let step = page.key_step(key_event, modifiers);
                    &&& after.spec_order_list().state() == step.state
                    &&& after.spec_order_list().spec_mode() == page.spec_mode()
                    &&& !step.to_slider ==> {
                        &&& after.spec_order_list().spec_volume() == page.spec_volume()
                        &&& after.spec_order_list().spec_pan() == page.spec_pan()
                        &&& events == before
                    }
                    &&& step.to_slider ==> ({
                        let c = page.state().cursor->VolPan_0 as int;
                        &&& after.spec_order_list().slider_of(c).value() == page.slider_of(c).input(key_event, modifiers).2
                        &&& page.slider_of(c).events_after(key_event, before, events)
                        &&& forall|i: int| 1 <= i <= 64 && i != c ==> #[trigger] after.spec_order_list().slider_of(i)
                            == page.slider_of(i)
                    })
                },
                PagesEnum::SampleList => {
                    let list = self.spec_sample_list();
                    let (selected, response) = list.key_effect(key_event, modifiers);
                    &&& after.spec_sample_list().spec_selected() == selected
                    &&& forall|i: int| 0 <= i < MAX_SAMPLES ==> #[trigger] after.spec_sample_list().name(i) == list.name(i)
                    &&& response == PageResponse::RequestRedraw ==> {
                        &&& after.spec_sample_list().spec_view() == view_after(selected, list.spec_view())
                        &&& events.len() == before.len() + 2
                        &&& events.take(before.len() as int) == before
                        &&& after.spec_sample_list().header_event_ok(events[before.len() as int])
                        &&& events.last() == GlobalEvent::PageEvent(
                            PageEvent::Pattern(PatternPageEvent::SetSampleInstr(selected as u8)),
                        )
                    }
                    &&& response == PageResponse::Nothing ==> {
                        &&& after.spec_sample_list().spec_view() == list.spec_view()
                        &&& events == if key_event.pressed && key_event.logical_key.is_named(NamedKey::Enter)
                            && modifiers.spec_is_empty() {
                            before.push(GlobalEvent::PickSample(list.spec_selected() as u8))
                        } else {
                            before
                        }
                    }
                },
            }
        }
    }

    /// Function keys without modifiers switch pages (F11 on the order list switches its
    /// mode instead) and always ask for a redraw; all other keys go to the current page.
    pub fn process_key_event(
        &mut self,
        modifiers: &Modifiers,
        key_event: &KeyEvent,
        events: &mut VecDeque<GlobalEvent>,
    ) -> (r: PageResponse)
        requires
            old(self).spec_key_supported(*key_event, *modifiers),
        ensures
            r == old(self).key_response(*key_event, *modifiers),
            final(events)@.len() >= old(events)@.len(),
            final(events)@.take(old(events)@.len() as int) == old(events)@,
            old(self).key_handled(*final(self), *key_event, *modifiers, old(events)@, final(events)@),
    {
        if key_event.pressed && modifiers.is_empty() {
            let key = &key_event.logical_key;
            if key.named(NamedKey::F1) {
                self.switch_page(PagesEnum::Help);
                return PageResponse::RequestRedraw;
            } else if key.named(NamedKey::F2) {
                self.switch_page(PagesEnum::Pattern);
                return PageResponse::RequestRedraw;
            } else if key.named(NamedKey::F11) {
                if self.current == PagesEnum::OrderList {
                    self.order_list.switch_mode();
                    self.request_draw_const();
                    return PageResponse::RequestRedraw;
                } else {
                    self.switch_page(PagesEnum::OrderList);
                    return PageResponse::RequestRedraw;
                }
            } else if key.named(NamedKey::F12) {
                self.switch_page(PagesEnum::SongDirectoryConfig);
                return PageResponse::RequestRedraw;
            } else if key.named(NamedKey::F3) {
                self.switch_page(PagesEnum::SampleList);
                return PageResponse::RequestRedraw;
            }
        }
        let ghost before = events@;
        let response = match self.current {
            PagesEnum::Help => self.help.process_key_event(),
            PagesEnum::SongDirectoryConfig => self.song_directory_config.process_key_event(modifiers, key_event, events),
            PagesEnum::Pattern => self.pattern.process_key_event(modifiers, key_event, events),
            PagesEnum::OrderList => self.order_list.process_key_event(modifiers, key_event, events),
            PagesEnum::SampleList => self.sample_list.process_key_event(modifiers, key_event, events),
        };
        proof {
            assert(events@.take(before.len() as int) =~= before);
        }
        response
    }

    /// Whether the current page can take the key, unless it switches pages.
    pub open spec fn spec_key_supported(&self, key_event: KeyEvent, modifiers: Modifiers) -> bool {
        !is_page_key(key_event, modifiers) ==> match self.spec_current() {
            PagesEnum::Help => true,
            PagesEnum::SongDirectoryConfig => self.spec_sdc().key_ok(key_event),
            PagesEnum::Pattern => self.spec_pattern().key_ok(key_event, modifiers),
            PagesEnum::OrderList => self.spec_order_list().key_ok(key_event, modifiers),
            PagesEnum::SampleList => true,
        }
    }

    pub fn key_supported(&self, modifiers: &Modifiers, key_event: &KeyEvent) -> (r: bool)
        ensures
            r == self.spec_key_supported(*key_event, *modifiers),
    {
        let key = &key_event.logical_key;
        let page_key = key_event.pressed && modifiers.is_empty() && (key.named(NamedKey::F1) || key.named(NamedKey::F2)
            || key.named(NamedKey::F11) || key.named(NamedKey::F12) || key.named(NamedKey::F3));
        page_key || match self.current {
            PagesEnum::Help => true,
            PagesEnum::SongDirectoryConfig => self.song_directory_config.accepts_key(key_event),
            PagesEnum::Pattern => self.pattern.key_supported(modifiers, key_event),
            PagesEnum::OrderList => self.order_list.accepts_key(modifiers, key_event),
            PagesEnum::SampleList => true,
        }
    }

    /// What a page event asks of the page it is for.
    pub open spec fn page_event_ok(&self, event: PageEvent) -> bool {
        match event {
            PageEvent::Sdc(_) => true,
            PageEvent::Pattern(PatternPageEvent::Loaded(p, idx)) => {
                &&& notes_valid(p)
                &&& 32 <= p.rows_len() <= 200
                &&& self.spec_pattern().state().draw_row + 32 <= p.rows_len()
                &&& idx < 256
            },
            PageEvent::Pattern(PatternPageEvent::SetSampleInstr(_)) => true,
            PageEvent::OrderList(e) => {
                &&& self.spec_order_list().state().cursor is VolPan
                &&& match e {
                    OrderListPageEvent::SetVolumeCurrent(v) => 0 <= v <= 64,
                    OrderListPageEvent::SetPanCurrent(v) => 0 <= v <= 64,
                }
            },
            PageEvent::SampleList(e) => match e {
                SampleListEvent::SelectSample(s) => s < MAX_SAMPLES,
                SampleListEvent::SetSample(idx, name) => idx < MAX_SAMPLES && is_ascii_chars(name@),
            },
        }
    }

    pub fn accepts_page_event(&self, event: &PageEvent) -> (r: bool)
        ensures
            r == self.page_event_ok(*event),
    {
        match event {
            PageEvent::Sdc(_) => true,
            PageEvent::Pattern(e) => self.pattern.accepts_event(e),
            PageEvent::OrderList(e) => self.order_list.accepts_event(e),
            PageEvent::SampleList(SampleListEvent::SelectSample(s)) => (*s as usize) < MAX_SAMPLES,
            PageEvent::SampleList(SampleListEvent::SetSample(idx, name)) => (*idx as usize) < MAX_SAMPLES && name.is_ascii(),
        }
    }

    /// How the page that `event` is for is after it, and the events after it when `before`
    /// were the events before.
    pub open spec fn page_event_handled(
        &self,
        after: AllPages,
        event: PageEvent,
        before: Seq<GlobalEvent>,
        events: Seq<GlobalEvent>,
    ) -> bool {
        match event {
            PageEvent::Sdc(change) => {
                let sdc = self.spec_sdc();
                &&& events == before
                &&& after.spec_sdc().spec_selected() == sdc.spec_selected()
                &&& match change {
                    SDCChange::SetSongName(s) => {
                        &&& after.spec_sdc().spec_song_name().spec_text() == if !is_ascii_chars(s@) {
                            sdc.spec_song_name().spec_text()
                        } else if s@.len() > sdc.spec_song_name().spec_width() {
                            s@.take(sdc.spec_song_name().spec_width() as int)
                        } else {
                            s@
                        }
                        &&& after.spec_sdc().spec_initial_tempo() == sdc.spec_initial_tempo()
                        &&& after.spec_sdc().spec_initial_speed() == sdc.spec_initial_speed()
                        &&& after.spec_sdc().spec_global_volume() == sdc.spec_global_volume()
                    },
                    SDCChange::InitialTempo(n) => after.spec_sdc().spec_initial_tempo().value() == if 31 <= n <= 255 {
                        n as int
                    } else {
                        sdc.spec_initial_tempo().value()
                    },
                    SDCChange::InitialSpeed(n) => after.spec_sdc().spec_initial_speed().value() == if 1 <= n <= 255 {
                        n as int
                    } else {
                        sdc.spec_initial_speed().value()
                    },
                    SDCChange::GlobalVolume(n) => after.spec_sdc().spec_global_volume().value() == if 0 <= n <= 128 {
                        n as int
                    } else {
                        sdc.spec_global_volume().value()
                    },
                }
            },
            PageEvent::Pattern(e) => {
                let page = self.spec_pattern();
                &&& after.spec_pattern().state() == page.state()
                &&& after.spec_pattern().spec_index() == page.spec_index()
                &&& match e {
                    PatternPageEvent::Loaded(p, idx) => {
                        &&& after.spec_pattern().spec_pattern() == p
                        &&& after.spec_pattern().spec_sample_instr() == page.spec_sample_instr()
                        &&& events == before + seq![
                            GlobalEvent::Header(HeaderEvent::SetPattern(idx as u8)),
                            GlobalEvent::Header(HeaderEvent::SetMaxCursorRow(p.rows_len() as u16)),
                        ]
                    },
                    PatternPageEvent::SetSampleInstr(s) => {
                        &&& after.spec_pattern().spec_pattern() == page.spec_pattern()
                        &&& after.spec_pattern().spec_sample_instr() == s
                        &&& events == before
                    },
                }
            },
            PageEvent::OrderList(e) => {
                let page = self.spec_order_list();
                let c = page.state().cursor->VolPan_0 - 1;
                &&& events == before
                &&& after.spec_order_list().state() == page.state()
                &&& after.spec_order_list().spec_mode() == page.spec_mode()
                &&& match e {
                    OrderListPageEvent::SetVolumeCurrent(v) => {
                        &&& after.spec_order_list().spec_pan() == page.spec_pan()
                        &&& after.spec_order_list().spec_volume()[c].value() == v
                        &&& forall|i: int| 0 <= i < 64 && i != c ==> #[trigger] after.spec_order_list().spec_volume()[i]
                            == page.spec_volume()[i]
                    },
                    OrderListPageEvent::SetPanCurrent(v) => {
                        &&& after.spec_order_list().spec_volume() == page.spec_volume()
                        &&& after.spec_order_list().spec_pan()[c].value() == v
                        &&& forall|i: int| 0 <= i < 64 && i != c ==> #[trigger] after.spec_order_list().spec_pan()[i]
                            == page.spec_pan()[i]
                    },
                }
            },
            PageEvent::SampleList(e) => {
                let list = self.spec_sample_list();
                match e {
                    SampleListEvent::SelectSample(s) => {
                        &&& after.spec_sample_list().spec_selected() == s
                        &&& after.spec_sample_list().spec_view() == view_after(s as int, list.spec_view())
                        &&& forall|i: int| 0 <= i < MAX_SAMPLES ==> #[trigger] after.spec_sample_list().name(i) == list.name(i)
                        &&& events.len() == before.len() + 1
                        &&& events.drop_last() == before
                        &&& after.spec_sample_list().header_event_ok(events.last())
                    },
                    SampleListEvent::SetSample(idx, name) => {
                        &&& after.spec_sample_list().spec_selected() == list.spec_selected()
                        &&& after.spec_sample_list().spec_view() == list.spec_view()
                        &&& forall|i: int|
                            0 <= i < MAX_SAMPLES ==> #[trigger] after.spec_sample_list().name(i) == if i == idx {
                                Some(name@)
                            } else {
                                list.name(i)
                            }
                        &&& if idx == list.spec_selected() {
                            events.len() == before.len() + 1 && events.drop_last() == before
                                && after.spec_sample_list().header_event_ok(events.last())
                        } else {
                            events == before
                        }
                    },
                }
            },
        }
    }

    /// Hands the event to its page; a redraw is asked for only when that page is shown.
    pub fn process_page_event(&mut self, event: PageEvent, events: &mut VecDeque<GlobalEvent>) -> (r: PageResponse)
        requires
            old(self).page_event_ok(event),
        ensures
            r == if event.spec_get_page() == old(self).spec_current() {
                page_event_response(event)
            } else {
                PageResponse::Nothing
            },
            final(self).spec_current() == old(self).spec_current(),
            final(self).spec_const_draw_needed() == old(self).spec_const_draw_needed(),
            event.spec_get_page() != PagesEnum::SongDirectoryConfig ==> final(self).spec_sdc() == old(self).spec_sdc(),
            event.spec_get_page() != PagesEnum::Pattern ==> final(self).spec_pattern() == old(self).spec_pattern(),
            event.spec_get_page() != PagesEnum::OrderList ==> final(self).spec_order_list() == old(self).spec_order_list(),
            event.spec_get_page() != PagesEnum::SampleList ==> final(self).spec_sample_list() == old(self).spec_sample_list(),
            old(self).page_event_handled(*final(self), event, old(events)@, final(events)@),
    {
        let page = event.get_page();
        let response = match event {
            PageEvent::Sdc(change) => self.song_directory_config.ui_change(change),
            PageEvent::Pattern(event) => self.pattern.process_event(event, events),
            PageEvent::OrderList(event) => self.order_list.process_event(event),
            PageEvent::SampleList(event) => self.sample_list.process_event(event, events),
        };
        if page == self.current {
            response
        } else {
            PageResponse::Nothing
        }
    }
}

/// The other order list mode.
pub open spec fn other_mode(mode: Mode) -> Mode {
    match mode {
        Mode::Panning => Mode::Volume,
        Mode::Volume => Mode::Panning,
    }
}


/// Switching the order list's mode twice gives back the mode it had.
pub proof fn lemma_switch_mode_twice(mode: Mode)
    ensures
        other_mode(other_mode(mode)) == mode,
        other_mode(mode) != mode,
{
}

/// Row 11 holds the page title and the rows above it the header: the current page draws,
/// its constant parts as well as its contents, only into rows 12 to 49, and so leaves every
/// pixel above row 12 as it was.
pub proof fn lemma_pages_keep_title_row(pages: AllPages, palette: Seq<u32>, x: int, y: int, before: u32)
    requires
        pages.wf(),
        0 <= y < 12 * 8,
    ensures
        all_within_rows(pages.page_constant_cmds(), 12, 49),
        all_within_rows(pages.page_cmds(), 12, 49),
        paint(pages.page_constant_cmds(), palette, x, y, before) == before,
        paint(pages.page_cmds(), palette, x, y, before) == before,
{
    pages.spec_sdc().lemma_in_page_area();
    pages.spec_pattern().lemma_in_page_area();
    pages.spec_order_list().lemma_in_page_area();
    pages.spec_sample_list().lemma_in_page_area();
    assert(all_within_rows(Seq::<Paint>::empty(), 12, 49));
    assert(all_within_rows(seq![Paint::Rect { color: 2, top: 12, bot: 49, left: 0, right: 79 }], 12, 49));
    assert(y / 8 < 12);
    lemma_paint_outside_rows(pages.page_constant_cmds(), 12, 49, palette, x, y, before);
    lemma_paint_outside_rows(pages.page_cmds(), 12, 49, palette, x, y, before);
}

/// Whether the events from `from` on all keep a drawable header drawable.
pub open spec fn all_keep_header_drawable(events: Seq<GlobalEvent>, from: int) -> bool {
    forall|i: int| from <= i < events.len() ==> keeps_header_drawable(#[trigger] events[i])
}

/// The pages only add events after those there were, and whatever they send to the header
/// keeps it drawable: row numbers within the pattern, names of samples that are ASCII.
pub proof fn lemma_key_keeps_header(
    pages: AllPages,
    after: AllPages,
    key_event: KeyEvent,
    modifiers: Modifiers,
    before: Seq<GlobalEvent>,
    events: Seq<GlobalEvent>,
)
    requires
        pages.wf(),
        pages.key_handled(after, key_event, modifiers, before, events),
    ensures
        events.len() >= before.len(),
        events.take(before.len() as int) == before,
        all_keep_header_drawable(events, before.len() as int),
{
    if !is_page_key(key_event, modifiers) {
        match pages.spec_current() {
            PagesEnum::Pattern => {
                let step = pages.spec_pattern().key_step(key_event, modifiers);
                pages.spec_pattern().lemma_key_step_keeps_header(key_event, modifiers);
                assert(events.take(before.len() as int) =~= before);
                assert forall|i: int| before.len() <= i < events.len() implies keeps_header_drawable(#[trigger] events[i]) by {
                    assert(events[i] == step.events[i - before.len()]);
                }
            },
            PagesEnum::SampleList => {
                let list = pages.spec_sample_list();
                let (selected, response) = list.key_effect(key_event, modifiers);
                if response == PageResponse::RequestRedraw {
                    assert(keeps_header_drawable(events[before.len() as int])) by {
                        assert(0 <= selected < MAX_SAMPLES);
                        assert(after.spec_sample_list().name(selected) == list.name(selected));
                        assert(is_ascii_chars(list.shown_name(selected)));
                        assert(is_ascii_chars(after.spec_sample_list().shown_name(selected)));
                    }
                } else {
                    assert(events.take(before.len() as int) =~= before);
                }
            },
            _ => {
                assert(events.take(before.len() as int) =~= before);
            },
        }
    } else {
        assert(events.take(before.len() as int) =~= before);
    }
}

/// A page event only adds events after those there were, and whatever the page sends to
/// the header keeps it drawable.
pub proof fn lemma_page_event_keeps_header(
    pages: AllPages,
    after: AllPages,
    event: PageEvent,
    before: Seq<GlobalEvent>,
    events: Seq<GlobalEvent>,
)
    requires
        pages.wf(),
        pages.page_event_ok(event),
        pages.page_event_handled(after, event, before, events),
    ensures
        events.len() >= before.len(),
        events.take(before.len() as int) == before,
        all_keep_header_drawable(events, before.len() as int),
{
    match event {
        PageEvent::SampleList(e) => {
            let list = pages.spec_sample_list();
            let selected = after.spec_sample_list().spec_selected();
            match e {
                SampleListEvent::SelectSample(s) => {
                    assert(after.spec_sample_list().name(selected) == list.name(selected));
                },
                SampleListEvent::SetSample(idx, name) => {
                    assert(after.spec_sample_list().name(selected) == if selected == idx {
                        Some(name@)
                    } else {
                        list.name(selected)
                    });
                },
            }
            assert(is_ascii_chars(list.shown_name(selected)));
            if events.len() > before.len() {
                assert(events.take(before.len() as int) =~= events.drop_last());
                assert(keeps_header_drawable(events.last()));
            } else {
                assert(events =~= before);
            }
        },
        PageEvent::Pattern(PatternPageEvent::Loaded(p, idx)) => {
            assert(events.take(before.len() as int) =~= before);
        },
        _ => {
            assert(events =~= before);
            assert(events.take(before.len() as int) =~= before);
        },
    }
}

} // verus!