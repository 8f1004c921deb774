//! The order list, with the volume and panning of the channels.
use std::collections::VecDeque;
use vstd::prelude::*;
use vstd::string::*;

use crate::coordinates::{CharPosition, CharRect};
use crate::draw_buffer::{all_within_rows, lemma_within_rows_concat, lemma_within_rows_wider, DrawBuffer, Paint};
use crate::events::{GlobalEvent, SliderTarget};
use crate::font::{basic_font_glyph, basic_glyph};
use crate::input::{Key, KeyEvent, Modifiers, NamedKey};
use crate::numbers::{decimal_digits, padded3, padded_three, zero_padded};
use crate::ui::pages::PageResponse;
use crate::ui::widgets::slider::Slider;
use crate::ui::widgets::{NextWidget, StandardResponse};

verus! {

/// Number of entries of the order list.
pub const MAX_ORDERS: usize = 256;

/// Number of channels.
pub const CHANNELS: usize = 64;

pub enum OrderListPageEvent {
    SetVolumeCurrent(i16),
    SetPanCurrent(i16),
}

/// One entry of the order list.
#[derive(Debug, Clone, Copy, PartialEq, Eq, Structural)]
pub enum PatternOrder {
    Number(u8),
    EndOfSong,
    SkipOrder,
}

/// Which of the two sliders each channel has the page shows.
#[derive(Debug, Clone, Copy, PartialEq, Eq, Structural)]
pub enum Mode {
    Panning,
    Volume,
}

/// Where the cursor is: in the order list, or on channel `c` (1 to 64).
#[derive(Debug, Clone, Copy, PartialEq, Eq, Structural)]
pub enum Cursor {
    Order,
    VolPan(u8),
}

/// How an entry of the order list is shown: three digits, `---` or `+++`.
pub open spec fn order_text(order: PatternOrder) -> Seq<char> {
    match order {
        PatternOrder::Number(n) => padded3(n as int),
        PatternOrder::EndOfSong => seq!['-', '-', '-'],
        PatternOrder::SkipOrder => seq!['+', '+', '+'],
    }
}

fn write_pattern_order(order: PatternOrder) -> (r: String)
    ensures
        r@ == order_text(order),
        r@.len() == 3,
        vstd::utf8::is_ascii_chars(r@),
{
    match order {
        PatternOrder::Number(n) => padded_three(n as i16),
        PatternOrder::EndOfSong => {
            proof {
                reveal_strlit("---");
            }
            String::from_str("---")
        },
        PatternOrder::SkipOrder => {
            proof {
                reveal_strlit("+++");
            }
            String::from_str("+++")
        },
    }
}

/// The order cursor and the first shown order after moving the cursor up by `count`.
pub open spec fn order_up(order: int, draw: int, count: int) -> (int, int) {
    let o = if order - count < 0 { 0 } else { order - count };
    (o, if draw < o { draw } else { o })
}

/// The order cursor and the first shown order after moving the cursor down by `count`.
pub open spec fn order_down(order: int, draw: int, count: int) -> (int, int) {
    let o = if order + count > 255 { 255 } else { order + count };
    let low = if o - 31 < 0 { 0 } else { o - 31 };
    (o, if draw > low { draw } else { low })
}

/// The place of the channel label of channel `c`: channels 1 to 32 on the left, the
/// others on the right.
pub open spec fn channel_label_pos(c: int) -> (int, int) {
    if c <= 32 {
        (19, 15 + c - 1)
    } else {
        (50, 15 + c - 33)
    }
}

/// A key step that changes the state to `state` and asks for a redraw.
pub open spec fn redraw(state: OrderState) -> OrderStep {
    OrderStep { state, response: PageResponse::RequestRedraw, to_slider: false }
}

/// The state of the order list page that its key handling changes, apart from the sliders.
pub struct OrderState {
    pub cursor: Cursor,
    pub order: int,
    pub digit: int,
    pub order_draw: int,
    pub pattern_order: Seq<PatternOrder>,
}

/// What a key event does on the page: the new state, the response, and whether the key
/// went on to the slider of the channel under the cursor.
pub struct OrderStep {
    pub state: OrderState,
    pub response: PageResponse,
    pub to_slider: bool,
}

/// Where the cursors of the order list may be: on a channel from 1 to 64, or on one of the
/// three digits of an order among the 32 shown, which start at order 224 at the latest.
pub open spec fn cursor_ok(s: OrderState) -> bool {
    &&& s.cursor matches Cursor::VolPan(c) ==> 1 <= c <= 64
    &&& 0 <= s.digit <= 2
    &&& 0 <= s.order_draw <= s.order <= s.order_draw + 31
    &&& s.order_draw <= 224
    &&& s.pattern_order.len() == MAX_ORDERS
}

pub struct OrderListPage {
    mode: Mode,
    cursor: Cursor,
    order: u8,
    // 0 - 2
    digit: u8,
    order_draw: u8,
    pattern_order: Vec<PatternOrder>,
    volume: Vec<Slider>,
    pan: Vec<Slider>,
}

impl OrderListPage {
    #[verifier::type_invariant]
    spec fn inv(self) -> bool {
        &&& self.pattern_order@.len() == MAX_ORDERS
        &&& self.volume@.len() == CHANNELS
        &&& self.pan@.len() == CHANNELS
        &&& self.cursor matches Cursor::VolPan(c) ==> 1 <= c <= 64
        &&& self.digit <= 2
        &&& self.order_draw <= self.order <= self.order_draw + 31
        &&& self.order_draw <= 224
        &&& forall|i: int| 0 <= i < CHANNELS ==> Self::slider_ok(#[trigger] self.volume@[i], i, SliderTarget::VolumeCurrent)
        &&& forall|i: int| 0 <= i < CHANNELS ==> Self::slider_ok(#[trigger] self.pan@[i], i, SliderTarget::PanCurrent)
    }

    /// Channel `idx + 1` has a slider 9 wide in `0..=64` at its place, whose dialog sets
    /// `target`.
    pub open spec fn slider_ok(slider: Slider, idx: int, target: SliderTarget) -> bool {
        &&& slider.spec_target() == target
        &&& slider.spec_number().spec_min() == 0
        &&& slider.spec_number().spec_max() == 64
        &&& (slider.spec_position().spec_x(), slider.spec_position().spec_y()) == Self::slider_pos(idx)
        &&& slider.spec_width() == 9
    }

    pub closed spec fn spec_mode(&self) -> Mode {
        self.mode
    }

    pub closed spec fn state(&self) -> OrderState {
        OrderState {
            cursor: self.cursor,
            order: self.order as int,
            digit: self.digit as int,
            order_draw: self.order_draw as int,
            pattern_order: self.pattern_order@,
        }
    }

    pub closed spec fn spec_volume(&self) -> Seq<Slider> {
        self.volume@
    }

    pub closed spec fn spec_pan(&self) -> Seq<Slider> {
        self.pan@
    }

    /// What every order list page satisfies: 256 orders, 64 channels, the cursor on a
    /// channel or on an order that is shown, with the 32 shown orders inside the list.
    pub open spec fn wf(&self) -> bool {
        let s = self.state();
        &&& cursor_ok(s)
        &&& self.spec_volume().len() == CHANNELS
        &&& self.spec_pan().len() == CHANNELS
        &&& forall|i: int| 0 <= i < CHANNELS ==> Self::slider_ok(#[trigger] self.spec_volume()[i], i, SliderTarget::VolumeCurrent)
        &&& forall|i: int| 0 <= i < CHANNELS ==> Self::slider_ok(#[trigger] self.spec_pan()[i], i, SliderTarget::PanCurrent)
    }

    /// The place of the slider of channel `idx + 1`.
    pub open spec fn slider_pos(idx: int) -> (int, int) {
        if idx >= 32 {
            (61, 15 + idx - 32)
        } else {
            (30, 15 + idx)
        }
    }

    fn slider_position(idx: usize) -> (r: CharPosition)
        requires
            idx < 64,
        ensures
            (r.spec_x(), r.spec_y()) == Self::slider_pos(idx as int),
    {
        if idx >= 32 {
            CharPosition::new(61, 15 + idx - 32)
        } else {
            CharPosition::new(30, 15 + idx)
        }
    }

    /// The sliders of all channels, each `width` 9 in `0..=64` at its place with `value`.
    fn sliders(value: i16, target: SliderTarget) -> (r: Vec<Slider>)
        requires
            0 <= value <= 64,
        ensures
            r@.len() == CHANNELS,
            forall|i: int|
                0 <= i < CHANNELS ==> Self::slider_ok(#[trigger] r@[i], i, target) && r@[i].value() == value,
    {
        let mut v: Vec<Slider> = Vec::with_capacity(CHANNELS);
        let mut idx: usize = 0;
        while idx < CHANNELS
            invariant
                idx <= CHANNELS,
                v@.len() == idx,
                0 <= value <= 64,
                forall|i: int|
                    0 <= i < idx ==> Self::slider_ok(#[trigger] v@[i], i, target) && v@[i].value() == value,
            decreases CHANNELS - idx,
        {
            let pos = Self::slider_position(idx);
            let slider = Slider::new(value, 0, 64, pos, 9, NextWidget::empty(), target);
            let ghost prev = v@;
            v.push(slider);
            proof {
                assert(v@[idx as int] == slider);
                assert forall|i: int| 0 <= i < idx + 1 implies Self::slider_ok(#[trigger] v@[i], i, target) && v@[i].value()
                    == value && v@[i].spec_target() == target by {
                    if i < idx {
                        assert(v@[i] == prev[i]);
                    }
                }
            }
            idx += 1;
        }
        v
    }

    /// 256 orders, all marking the end of the song.
    fn empty_orders() -> (r: Vec<PatternOrder>)
        ensures
            r@ == Seq::new(256, |_i: int| PatternOrder::EndOfSong),
    {
        let mut pattern_order: Vec<PatternOrder> = Vec::with_capacity(MAX_ORDERS);
        let mut i: usize = 0;
        while i < MAX_ORDERS
            invariant
                i <= MAX_ORDERS,
                pattern_order@ == Seq::new(i as nat, |_i: int| PatternOrder::EndOfSong),
            decreases MAX_ORDERS - i,
        {
            pattern_order.push(PatternOrder::EndOfSong);
            proof {
                assert(pattern_order@ =~= Seq::new((i + 1) as nat, |_i: int| PatternOrder::EndOfSong));
            }
            i += 1;
        }
        pattern_order
    }

    /// An empty order list, cursor on the first order, panning shown; volumes at 64,
    /// panning in the middle at 32.
    pub fn new() -> (r: Self)
        ensures
            r.wf(),
            r.spec_mode() == Mode::Panning,
            r.state().cursor == Cursor::Order,
            r.state().order == 0,
            r.state().digit == 0,
            r.state().order_draw == 0,
            r.state().pattern_order == Seq::new(256, |_i: int| PatternOrder::EndOfSong),
            forall|i: int| 0 <= i < CHANNELS ==> #[trigger] r.spec_volume()[i].value() == 64,
            forall|i: int| 0 <= i < CHANNELS ==> #[trigger] r.spec_pan()[i].value() == 32,
    {
        let pattern_order = Self::empty_orders();
        Self {
            cursor: Cursor::Order,
            mode: Mode::Panning,
            order: 0,
            digit: 0,
            order_draw: 0,
            pattern_order,
            volume: Self::sliders(64, SliderTarget::VolumeCurrent),
            pan: Self::sliders(32, SliderTarget::PanCurrent),
        }
    }

    /// Volume and panning set from a slider dialog go to the slider of the channel under
    /// the cursor, which must be on a channel; the value lies within the slider's bounds.
    pub fn process_event(&mut self, event: OrderListPageEvent) -> (r: PageResponse)
        requires
            old(self).state().cursor is VolPan,
            match event {
                OrderListPageEvent::SetVolumeCurrent(v) => 0 <= v <= 64,
                OrderListPageEvent::SetPanCurrent(v) => 0 <= v <= 64,
            },
        ensures
            r == PageResponse::RequestRedraw,
            final(self).state() == old(self).state(),
            final(self).spec_mode() == old(self).spec_mode(),
            ({
                let c = old(self).state().cursor->VolPan_0 - 1;
                match event {
                    OrderListPageEvent::SetVolumeCurrent(v) => {
                        &&& final(self).spec_pan() == old(self).spec_pan()
                        &&& final(self).spec_volume().len() == old(self).spec_volume().len()
                        &&& final(self).spec_volume()[c].value() == v
                        &&& final(self).spec_volume()[c].same_frame(&old(self).spec_volume()[c])
                        &&& forall|i: int| 0 <= i < CHANNELS && i != c ==> #[trigger] final(self).spec_volume()[i]
                            == old(self).spec_volume()[i]
                    },
                    OrderListPageEvent::SetPanCurrent(v) => {
                        &&& final(self).spec_volume() == old(self).spec_volume()
                        &&& final(self).spec_pan().len() == old(self).spec_pan().len()
                        &&& final(self).spec_pan()[c].value() == v
                        &&& final(self).spec_pan()[c].same_frame(&old(self).spec_pan()[c])
                        &&& forall|i: int| 0 <= i < CHANNELS && i != c ==> #[trigger] final(self).spec_pan()[i]
                            == old(self).spec_pan()[i]
                    },
                }
            }),
    {
        proof {
            use_type_invariant(&*self);
        }
        let cursor = match self.cursor {
            Cursor::VolPan(c) => c,
            Cursor::Order => {
                proof {
                    assert(false);
                }
                1
            },
        };
        let idx = (cursor - 1) as usize;
        match event {
            OrderListPageEvent::SetVolumeCurrent(vol) => {
                let mut volume = self.take_volume();
                let mut slider = volume.remove(idx);
                let _ = slider.try_set(vol);
                volume.insert(idx, slider);
                proof {
                    assert(volume@ =~= old(self).spec_volume().update(idx as int, slider));
                }
                self.volume = volume;
            },
            OrderListPageEvent::SetPanCurrent(pan) => {
                let mut pans = self.take_pan();
                let mut slider = pans.remove(idx);
                let _ = slider.try_set(pan);
                pans.insert(idx, slider);
                proof {
                    assert(pans@ =~= old(self).spec_pan().update(idx as int, slider));
                }
                self.pan = pans;
            },
        }
        PageResponse::RequestRedraw
    }

    /// Takes the volume sliders out, leaving copies of the panning ones.
    fn take_volume(&mut self) -> (r: Vec<Slider>)
        ensures
            r@ == old(self).spec_volume(),
            final(self).state() == old(self).state(),
            final(self).spec_mode() == old(self).spec_mode(),
            final(self).spec_pan() == old(self).spec_pan(),
            final(self).spec_volume().len() == CHANNELS,
    {
        proof {
            use_type_invariant(&*self);
        }
        let mut other = Self::sliders(64, SliderTarget::VolumeCurrent);
        std::mem::swap(&mut self.volume, &mut other);
        other
    }

    fn take_pan(&mut self) -> (r: Vec<Slider>)
        ensures
            r@ == old(self).spec_pan(),
            final(self).state() == old(self).state(),
            final(self).spec_mode() == old(self).spec_mode(),
            final(self).spec_volume() == old(self).spec_volume(),
            final(self).spec_pan().len() == CHANNELS,
    {
        proof {
            use_type_invariant(&*self);
        }
        let mut other = Self::sliders(32, SliderTarget::PanCurrent);
        std::mem::swap(&mut self.pan, &mut other);
        other
    }

    /// The slider of channel `c` in the shown mode.
    pub open spec fn slider_of(&self, c: int) -> Slider {
        match self.spec_mode() {
            Mode::Panning => self.spec_pan()[c - 1],
            Mode::Volume => self.spec_volume()[c - 1],
        }
    }

    /// What a key event does on the page. In the order list: tab moves to the channels,
    /// up and down (by 16 with page up and down) move the cursor, left and right move
    /// between its three digits, `+` marks the order to be skipped and `-` or `.` marks the
    /// end of the song, both moving down. On a channel: tab moves between the two columns
    /// and the order list, up and down between channels; other keys go to its slider.
    pub open spec fn key_step(&self, key_event: KeyEvent, modifiers: Modifiers) -> OrderStep {
        let s = self.state();
        let key = key_event.logical_key;
        let same = OrderStep { state: s, response: PageResponse::Nothing, to_slider: false };
        match s.cursor {
            Cursor::Order => {
                if key.is_named(NamedKey::Tab) && key_event.pressed && modifiers.spec_only_shift() {
                    redraw(OrderState { cursor: Cursor::VolPan(33), ..s })
                } else if key.is_named(NamedKey::Tab) && key_event.pressed && modifiers.spec_is_empty() {
                    redraw(OrderState { cursor: Cursor::VolPan(1), ..s })
                } else if modifiers.spec_is_empty() && key_event.pressed {
                    if key.is_named(NamedKey::ArrowUp) || key.is_named(NamedKey::PageUp) {
                        if s.order == 0 {
                            same
                        } else {
                            let (o, d) = order_up(
                                s.order,
                                s.order_draw,
                                if key.is_named(NamedKey::ArrowUp) { 1 } else { 16 },
                            );
                            redraw(OrderState { order: o, order_draw: d, ..s })
                        }
                    } else if key.is_named(NamedKey::ArrowDown) || key.is_named(NamedKey::PageDown) {
                        if s.order == 255 {
                            same
                        } else {
                            let (o, d) = order_down(
                                s.order,
                                s.order_draw,
                                if key.is_named(NamedKey::ArrowDown) { 1 } else { 16 },
                            );
                            redraw(OrderState { order: o, order_draw: d, ..s })
                        }
                    } else if key.is_named(NamedKey::ArrowLeft) {
                        redraw(OrderState { digit: if s.digit == 0 { 2 } else { s.digit - 1 }, ..s })
                    } else if key.is_named(NamedKey::ArrowRight) {
                        redraw(OrderState { digit: if s.digit == 2 { 0 } else { s.digit + 1 }, ..s })
                    } else if key is Character {
                        let (o, d) = if s.order == 255 {
                            (s.order, s.order_draw)
                        } else {
                            order_down(s.order, s.order_draw, 1)
                        };
                        if key.first_char() == Some('+') {
                            redraw(
                                OrderState {
                                    pattern_order: s.pattern_order.update(s.order, PatternOrder::SkipOrder),
                                    order: o,
                                    order_draw: d,
                                    digit: 0,
                                    ..s
                                },
                            )
                        } else if key.first_char() == Some('-') || key.first_char() == Some('.') {
                            redraw(
                                OrderState {
                                    pattern_order: s.pattern_order.update(s.order, PatternOrder::EndOfSong),
                                    order: o,
                                    order_draw: d,
                                    digit: 0,
                                    ..s
                                },
                            )
                        } else {
                            same
                        }
                    } else {
                        same
                    }
                } else {
                    same
                }
            },
            Cursor::VolPan(c) => {
                if key.is_named(NamedKey::Tab) && key_event.pressed {
                    if modifiers.spec_only_shift() {
                        redraw(OrderState { cursor: if c <= 32 { Cursor::Order } else { Cursor::VolPan((c - 32) as u8) }, ..s })
                    } else if modifiers.spec_is_empty() {
                        redraw(OrderState { cursor: if c <= 32 { Cursor::VolPan((c + 32) as u8) } else { Cursor::Order }, ..s })
                    } else {
                        same
                    }
                } else if modifiers.spec_is_empty() && key_event.pressed && key.is_named(NamedKey::ArrowUp) {
                    if c == 1 {
                        same
                    } else {
                        redraw(OrderState { cursor: Cursor::VolPan((c - 1) as u8), ..s })
                    }
                } else if modifiers.spec_is_empty() && key_event.pressed && key.is_named(NamedKey::ArrowDown) {
                    if c == 64 {
                        same
                    } else {
                        redraw(OrderState { cursor: Cursor::VolPan((c + 1) as u8), ..s })
                    }
                } else {
                    OrderStep {
                        state: s,
                        response: match self.slider_of(c as int).input(key_event, modifiers).0 {
                            StandardResponse::RequestRedraw => PageResponse::RequestRedraw,
                            _ => PageResponse::Nothing,
                        },
                        to_slider: true,
                    }
                }
            },
        }
    }

    /// Whether the page takes `key_event`: with the cursor on the orders, a pressed key
    /// without modifiers produces at most one character.
    pub open spec fn key_ok(&self, key_event: KeyEvent, modifiers: Modifiers) -> bool {
        (self.state().cursor is Order && key_event.pressed && modifiers.spec_is_empty() && key_event.logical_key is Character)
            ==> key_event.logical_key->Character_0@.len() <= 1
    }

    pub fn accepts_key(&self, modifiers: &Modifiers, key_event: &KeyEvent) -> (r: bool)
        ensures
            r == self.key_ok(*key_event, *modifiers),
    {
        match (&self.cursor, &key_event.logical_key) {
            (Cursor::Order, Key::Character(s)) => !(key_event.pressed && modifiers.is_empty()) || s.as_str().unicode_len() <= 1,
            _ => true,
        }
    }

    fn order_cursor_up(&mut self, count: u8) -> (r: PageResponse)
        requires
            1 <= count <= 16,
        ensures
            old(self).state().order == 0 ==> r == PageResponse::Nothing && final(self).state() == old(self).state(),
            old(self).state().order != 0 ==> r == PageResponse::RequestRedraw && final(self).state() == (OrderState {
                order: order_up(old(self).state().order, old(self).state().order_draw, count as int).0,
                order_draw: order_up(old(self).state().order, old(self).state().order_draw, count as int).1,
                ..old(self).state()
            }),
            final(self).spec_mode() == old(self).spec_mode(),
            final(self).spec_volume() == old(self).spec_volume(),
            final(self).spec_pan() == old(self).spec_pan(),
    {
        proof {
            use_type_invariant(&*self);
        }
        if self.order == 0 {
            return PageResponse::Nothing;
        }
        let order = self.order.saturating_sub(count);
        let draw = if self.order_draw < order {
            self.order_draw
        } else {
            order
        };
        self.order_draw = draw;
        self.order = order;
        PageResponse::RequestRedraw
    }

    fn order_cursor_down(&mut self, count: u8) -> (r: PageResponse)
        requires
            1 <= count <= 16,
        ensures
            old(self).state().order == 255 ==> r == PageResponse::Nothing && final(self).state() == old(self).state(),
            old(self).state().order != 255 ==> r == PageResponse::RequestRedraw && final(self).state() == (OrderState {
                order: order_down(old(self).state().order, old(self).state().order_draw, count as int).0,
                order_draw: order_down(old(self).state().order, old(self).state().order_draw, count as int).1,
                ..old(self).state()
            }),
            final(self).spec_mode() == old(self).spec_mode(),
            final(self).spec_volume() == old(self).spec_volume(),
            final(self).spec_pan() == old(self).spec_pan(),
    {
        proof {
            use_type_invariant(&*self);
        }
        if self.order == 255 {
            return PageResponse::Nothing;
        }
        let order = self.order.saturating_add(count);
        let low = order.saturating_sub(31);
        let draw = if self.order_draw > low {
            self.order_draw
        } else {
            low
        };
        self.order_draw = draw;
        self.order = order;
        PageResponse::RequestRedraw
    }

    /// Sets the order under the cursor to `value`, moves down one and to the first digit.
    fn set_order_and_move(&mut self, value: PatternOrder)
        ensures
            final(self).state() == ({
                let s = old(self).state();
                let (o, d) = if s.order == 255 {
                    (s.order, s.order_draw)
                } else {
                    order_down(s.order, s.order_draw, 1)
                };
                OrderState { pattern_order: s.pattern_order.update(s.order, value), order: o, order_draw: d, digit: 0, ..s }
            }),
            final(self).spec_mode() == old(self).spec_mode(),
            final(self).spec_volume() == old(self).spec_volume(),
            final(self).spec_pan() == old(self).spec_pan(),
    {
        proof {
            use_type_invariant(&*self);
        }
        let idx = self.order as usize;
        let mut orders = Self::empty_orders();
        std::mem::swap(&mut orders, &mut self.pattern_order);
        orders.set(idx, value);
        std::mem::swap(&mut orders, &mut self.pattern_order);
        self.order_cursor_down(1);
        self.digit = 0;
    }

    pub fn process_key_event(
        &mut self,
        modifiers: &Modifiers,
        key_event: &KeyEvent,
        events: &mut VecDeque<GlobalEvent>,
    ) -> (r: PageResponse)
        requires
            old(self).key_ok(*key_event, *modifiers),
        ensures
            final(self).state() == old(self).key_step(*key_event, *modifiers).state,
            r == old(self).key_step(*key_event, *modifiers).response,
            final(self).spec_mode() == old(self).spec_mode(),
            !old(self).key_step(*key_event, *modifiers).to_slider ==> {
                &&& final(self).spec_volume() == old(self).spec_volume()
                &&& final(self).spec_pan() == old(self).spec_pan()
                &&& final(events)@ == old(events)@
            },
            old(self).key_step(*key_event, *modifiers).to_slider ==> ({
                let c = old(self).state().cursor->VolPan_0 as int;
                let before = old(self).slider_of(c);
                let after = final(self).slider_of(c);
                &&& after.value() == before.input(*key_event, *modifiers).2
                &&& after.same_frame(&before)
                &&& before.events_after(*key_event, old(events)@, final(events)@)
                &&& forall|i: int| 1 <= i <= 64 && i != c ==> #[trigger] final(self).slider_of(i) == old(self).slider_of(i)
                &&& match old(self).spec_mode() {
                    Mode::Panning => final(self).spec_volume() == old(self).spec_volume(),
                    Mode::Volume => final(self).spec_pan() == old(self).spec_pan(),
                }
            }),
    {
        proof {
            use_type_invariant(&*self);
        }
        let key = &key_event.logical_key;
        match self.cursor {
            Cursor::Order => {
                if key.named(NamedKey::Tab) && key_event.pressed {
                    if modifiers.only_shift() {
                        self.cursor = Cursor::VolPan(33);
                        return PageResponse::RequestRedraw;
                    } else if modifiers.is_empty() {
                        self.cursor = Cursor::VolPan(1);
                        return PageResponse::RequestRedraw;
                    }
                }
                if modifiers.is_empty() && key_event.pressed {
                    if key.named(NamedKey::ArrowUp) {
                        return self.order_cursor_up(1);
                    } else if key.named(NamedKey::ArrowDown) {
                        return self.order_cursor_down(1);
                    } else if key.named(NamedKey::PageDown) {
                        return self.order_cursor_down(16);
                    } else if key.named(NamedKey::PageUp) {
                        return self.order_cursor_up(16);
                    } else if key.named(NamedKey::ArrowLeft) {
                        self.digit = if self.digit == 0 {
                            2
                        } else {
                            self.digit - 1
                        };
                        return PageResponse::RequestRedraw;
                    } else if key.named(NamedKey::ArrowRight) {
                        self.digit = if self.digit == 2 {
                            0
                        } else {
                            self.digit + 1
                        };
                        return PageResponse::RequestRedraw;
                    } else if key.named(NamedKey::Tab) {
                        // go to channel 1
                        self.cursor = Cursor::VolPan(1);
                        return PageResponse::RequestRedraw;
                    } else if let Key::Character(_) = key {
                        let first = key.get_first_char();
                        if first == Some('+') {
                            self.set_order_and_move(PatternOrder::SkipOrder);
                            return PageResponse::RequestRedraw;
                        } else if first == Some('-') || first == Some('.') {
                            self.set_order_and_move(PatternOrder::EndOfSong);
                            return PageResponse::RequestRedraw;
                        } else {
                            return PageResponse::Nothing;
                        }
                    }
                }
            },
            Cursor::VolPan(c) => {
                if key.named(NamedKey::Tab) && key_event.pressed {
                    if modifiers.only_shift() {
                        if c <= 32 {
                            self.cursor = Cursor::Order;
                        } else {
                            self.cursor = Cursor::VolPan(c - 32);
                        }
                        return PageResponse::RequestRedraw;
                    } else if modifiers.is_empty() {
                        if c <= 32 {
                            self.cursor = Cursor::VolPan(c + 32);
                        } else {
                            self.cursor = Cursor::Order;
                        }
                        return PageResponse::RequestRedraw;
                    }
                    return PageResponse::Nothing;
                }
                if modifiers.is_empty() && key_event.pressed {
                    if key.named(NamedKey::ArrowUp) {
                        if c == 1 {
                            return PageResponse::Nothing;
                        } else {
                            self.cursor = Cursor::VolPan(c - 1);
                            return PageResponse::RequestRedraw;
                        }
                    } else if key.named(NamedKey::ArrowDown) {
                        if c == 64 {
                            return PageResponse::Nothing;
                        } else {
                            self.cursor = Cursor::VolPan(c + 1);
                            return PageResponse::RequestRedraw;
                        }
                    }
                }
                let idx = (c - 1) as usize;
                let standard = match self.mode {
                    Mode::Panning => {
                        let mut pans = self.take_pan();
                        let mut slider = pans.remove(idx);
                        let response = slider.process_input(modifiers, key_event, events);
                        pans.insert(idx, slider);
                        proof {
                            assert(pans@ =~= old(self).spec_pan().update(idx as int, slider));
                        }
                        self.pan = pans;
                        response.standard
                    },
                    Mode::Volume => {
                        let mut volume = self.take_volume();
                        let mut slider = volume.remove(idx);
                        let response = slider.process_input(modifiers, key_event, events);
                        volume.insert(idx, slider);
                        proof {
                            assert(volume@ =~= old(self).spec_volume().update(idx as int, slider));
                        }
                        self.volume = volume;
                        response.standard
                    },
                };
                return match standard {
                    StandardResponse::RequestRedraw => PageResponse::RequestRedraw,
                    _ => PageResponse::Nothing,
                };
            },
        }
        PageResponse::Nothing
    }

    /// What drawing the row `pos` of the shown orders does: the order's number, then its
    /// entry.
    pub open spec fn order_row_cmds(&self, pos: int) -> Seq<Paint> {
        let s = self.state();
        let order = s.order_draw + pos;
        seq![
            Paint::Text { text: padded3(order), x: 2, y: 15 + pos, fg: 0, bg: 2 },
            Paint::Text { text: order_text(s.pattern_order[order]), x: 7, y: 15 + pos, fg: 2, bg: 0 },
        ]
    }

    /// What drawing the first `n` rows of the shown orders does.
    pub open spec fn order_rows_cmds(&self, n: int) -> Seq<Paint>
        decreases n,
    {
        if n <= 0 {
            Seq::empty()
        } else {
            self.order_rows_cmds(n - 1) + self.order_row_cmds(n - 1)
        }
    }

    /// What drawing the labels of channels `row + 1` and `row + 33` does.
    pub open spec fn channel_row_cmds(row: int) -> Seq<Paint> {
        seq![
            Paint::Text { text: "Channel"@, x: 19, y: 15 + row, fg: 0, bg: 2 },
            Paint::Text { text: "Channel"@, x: 50, y: 15 + row, fg: 0, bg: 2 },
            Paint::Text { text: decimal_digits((row + 1) as nat, 2), x: 27, y: 15 + row, fg: 0, bg: 2 },
            Paint::Text { text: decimal_digits((row + 33) as nat, 2), x: 58, y: 15 + row, fg: 0, bg: 2 },
        ]
    }

    /// What drawing the first `n` rows of channel labels does.
    pub open spec fn channel_rows_cmds(n: int) -> Seq<Paint>
        decreases n,
    {
        if n <= 0 {
            Seq::empty()
        } else {
            Self::channel_rows_cmds(n - 1) + Self::channel_row_cmds(n - 1)
        }
    }

    /// What drawing the cursor does: the digit under it inverted, or the label of its
    /// channel highlighted.
    pub open spec fn cursor_cmds(&self) -> Seq<Paint> {
        let s = self.state();
        match s.cursor {
            Cursor::Order => seq![
                Paint::Glyph {
                    glyph: basic_font_glyph(order_text(s.pattern_order[s.order])[s.digit]),
                    x: 7 + s.digit,
                    y: 15 + s.order - s.order_draw,
                    fg: 0,
                    bg: 3,
                },
            ],
            Cursor::VolPan(c) => {
                let (x, y) = channel_label_pos(c as int);
                seq![
                    Paint::Text { text: "Channel"@, x, y, fg: 3, bg: 2 },
                    Paint::Text { text: decimal_digits(c as nat, 2), x: x + 8, y, fg: 3, bg: 2 },
                ]
            },
        }
    }

    /// What drawing the sliders of the first `n` channels in the shown mode does.
    pub open spec fn sliders_cmds(&self, n: int) -> Seq<Paint>
        decreases n,
    {
        if n <= 0 {
            Seq::empty()
        } else {
            self.sliders_cmds(n - 1) + self.slider_of(n).paint_cmds(self.state().cursor == Cursor::VolPan(n as u8))
        }
    }

    /// What drawing the page does: the 32 shown orders, the channel labels, the cursor and
    /// the sliders of the shown mode.
    pub open spec fn paint_cmds(&self) -> Seq<Paint> {
        self.order_rows_cmds(32) + Self::channel_rows_cmds(32) + self.cursor_cmds() + self.sliders_cmds(64)
    }

    pub fn draw(&self, buffer: &mut DrawBuffer)
        requires
            old(buffer).wf(),
        ensures
            final(buffer).painted(old(buffer), self.paint_cmds()),
    {
        proof {
            use_type_invariant(self);
            reveal_strlit("Channel");
            DrawBuffer::lemma_painted_nothing(buffer);
        }
        let ghost b0 = *buffer;
        let mut pos: usize = 0;
        while pos < 32
            invariant
                pos <= 32,
                self.state().order_draw <= 224,
                self.state().pattern_order.len() == MAX_ORDERS,
                buffer.painted(&b0, self.order_rows_cmds(pos as int)),
            decreases 32 - pos,
        {
            let ghost before = *buffer;
            let order = self.order_draw as usize + pos;
            // row index
            let number = padded_three(order as i16);
            buffer.draw_string(number.as_str(), CharPosition::new(2, 15 + pos), 0, 2);
            let ghost mid = *buffer;
            // row value
            let value = write_pattern_order(self.pattern_order[order]);
            buffer.draw_string(value.as_str(), CharPosition::new(7, 15 + pos), 2, 0);
            proof {
                let c = self.order_row_cmds(pos as int);
                DrawBuffer::lemma_painted_then(&before, &mid, buffer, seq![c[0]], seq![c[1]]);
                assert(seq![c[0]] + seq![c[1]] =~= c);
                DrawBuffer::lemma_painted_then(&b0, &before, buffer, self.order_rows_cmds(pos as int), c);
            }
            pos += 1;
        }
        let ghost b1 = *buffer;
        let mut row: usize = 0;
        while row < 32
            invariant
                row <= 32,
                "Channel"@ == seq!['C', 'h', 'a', 'n', 'n', 'e', 'l'],
                buffer.painted(&b1, Self::channel_rows_cmds(row as int)),
            decreases 32 - row,
        {
            let ghost before = *buffer;
            buffer.draw_string("Channel", CharPosition::new(19, 15 + row), 0, 2);
            let ghost m1 = *buffer;
            buffer.draw_string("Channel", CharPosition::new(50, 15 + row), 0, 2);
            let ghost m2 = *buffer;
            let left = zero_padded((row + 1) as u32, 2);
            buffer.draw_string(left.as_str(), CharPosition::new(27, 15 + row), 0, 2);
            let ghost m3 = *buffer;
            let right = zero_padded((row + 33) as u32, 2);
            buffer.draw_string(right.as_str(), CharPosition::new(58, 15 + row), 0, 2);
            proof {
                let c = Self::channel_row_cmds(row as int);
                DrawBuffer::lemma_painted_then(&before, &m1, &m2, seq![c[0]], seq![c[1]]);
                DrawBuffer::lemma_painted_then(&before, &m2, &m3, seq![c[0]] + seq![c[1]], seq![c[2]]);
                DrawBuffer::lemma_painted_then(&before, &m3, buffer, seq![c[0]] + seq![c[1]] + seq![c[2]], seq![c[3]]);
                assert(seq![c[0]] + seq![c[1]] + seq![c[2]] + seq![c[3]] =~= c);
                DrawBuffer::lemma_painted_then(&b1, &before, buffer, Self::channel_rows_cmds(row as int), c);
            }
            row += 1;
        }
        let ghost b2 = *buffer;
        match self.cursor {
            Cursor::Order => {
                let text = write_pattern_order(self.pattern_order[self.order as usize]);
                let c = text.as_str().get_char(self.digit as usize);
                let glyph = match basic_glyph(c) {
                    Some(g) => g,
                    None => {
                        proof {
                            assert(false);
                        }
                        [0u8; 8]
                    },
                };
                buffer.draw_char(
                    glyph,
                    CharPosition::new(7 + self.digit as usize, 15 + (self.order - self.order_draw) as usize),
                    0,
                    3,
                );
                proof {
                    assert(self.cursor_cmds() =~= seq![self.cursor_cmds()[0]]);
                }
            },
            Cursor::VolPan(c) => {
                let pos = if c <= 32 {
                    CharPosition::new(19, 15 + (c - 1) as usize)
                } else {
                    CharPosition::new(50, 15 + (c - 33) as usize)
                };
                buffer.draw_string("Channel", pos, 3, 2);
                let ghost m = *buffer;
                let number = zero_padded(c as u32, 2);
                buffer.draw_string(number.as_str(), pos + CharPosition::new(8, 0), 3, 2);
                proof {
                    let cc = self.cursor_cmds();
                    DrawBuffer::lemma_painted_then(&b2, &m, buffer, seq![cc[0]], seq![cc[1]]);
                    assert(seq![cc[0]] + seq![cc[1]] =~= cc);
                }
            },
        }
        let ghost b3 = *buffer;
        proof {
            DrawBuffer::lemma_painted_nothing(buffer);
        }
        let mut idx: usize = 0;
        while idx < CHANNELS
            invariant
                idx <= CHANNELS,
                self.spec_volume().len() == CHANNELS,
                self.spec_pan().len() == CHANNELS,
                buffer.painted(&b3, self.sliders_cmds(idx as int)),
            decreases CHANNELS - idx,
        {
            let ghost before = *buffer;
            let selected = match self.cursor {
                Cursor::VolPan(c) => c as usize == idx + 1,
                Cursor::Order => false,
            };
            match self.mode {
                Mode::Panning => self.pan[idx].draw(buffer, selected),
                Mode::Volume => self.volume[idx].draw(buffer, selected),
            }
            proof {
                assert(selected == (self.state().cursor == Cursor::VolPan((idx + 1) as u8)));
                DrawBuffer::lemma_painted_then(
                    &b3,
                    &before,
                    buffer,
                    self.sliders_cmds(idx as int),
                    self.slider_of(idx + 1).paint_cmds(selected),
                );
            }
            idx += 1;
        }
        proof {
            DrawBuffer::lemma_painted_then(&b0, &b1, &b2, self.order_rows_cmds(32), Self::channel_rows_cmds(32));
            DrawBuffer::lemma_painted_then(
                &b0,
                &b2,
                &b3,
                self.order_rows_cmds(32) + Self::channel_rows_cmds(32),
                self.cursor_cmds(),
            );
            DrawBuffer::lemma_painted_then(
                &b0,
                &b3,
                buffer,
                self.order_rows_cmds(32) + Self::channel_rows_cmds(32) + self.cursor_cmds(),
                self.sliders_cmds(64),
            );
        }
    }

    /// What drawing the constant parts does: the page background and the box of the order list.
    pub open spec fn constant_cmds() -> Seq<Paint> {
        seq![
            Paint::Rect { color: 2, top: 12, bot: 49, left: 0, right: 79 },
            Paint::Box { top: 14, bot: 47, left: 6, right: 10, space: 6, bg: 2, tl: 1, br: 3 },
        ]
    }

    pub fn draw_constant(&self, buffer: &mut DrawBuffer)
        requires
            old(buffer).wf(),
        ensures
            final(buffer).painted(old(buffer), Self::constant_cmds()),
    {
        let ghost b0 = *buffer;
        buffer.draw_rect(2, CharRect::page_area());
        let ghost b1 = *buffer;
        buffer.draw_in_box(CharRect::new(14, 14 + 33, 6, 10), 2, 1, 3, 2);
        proof {
            let c = Self::constant_cmds();
            DrawBuffer::lemma_painted_then(&b0, &b1, buffer, seq![c[0]], seq![c[1]]);
            assert(seq![c[0]] + seq![c[1]] =~= c);
        }
    }

    /// Whether the page can take `event`: a slider is selected and the value lies within
    /// its bounds, the bounds included.
    pub fn accepts_event(&self, event: &OrderListPageEvent) -> (r: bool)
        ensures
            r == (self.state().cursor is VolPan && match *event {
                OrderListPageEvent::SetVolumeCurrent(v) => 0 <= v <= 64,
                OrderListPageEvent::SetPanCurrent(v) => 0 <= v <= 64,
            }),
    {
        let on_slider = match self.cursor {
            Cursor::VolPan(_) => true,
            Cursor::Order => false,
        };
        let value = match event {
            OrderListPageEvent::SetVolumeCurrent(v) => *v,
            OrderListPageEvent::SetPanCurrent(v) => *v,
        };
        on_slider && 0 <= value && value <= 64
    }

    pub fn switch_mode(&mut self)
        ensures
            final(self).spec_mode() == match old(self).spec_mode() {
                Mode::Panning => Mode::Volume,
                Mode::Volume => Mode::Panning,
            },
            final(self).state() == old(self).state(),
            final(self).spec_volume() == old(self).spec_volume(),
            final(self).spec_pan() == old(self).spec_pan(),
    {
        proof {
            use_type_invariant(&*self);
        }
        self.mode = match self.mode {
            Mode::Panning => Mode::Volume,
            Mode::Volume => Mode::Panning,
        }
    }

    pub fn reset_mode(&mut self)
        ensures
            final(self).spec_mode() == Mode::Panning,
            final(self).state() == old(self).state(),
            final(self).spec_volume() == old(self).spec_volume(),
            final(self).spec_pan() == old(self).spec_pan(),
    {
        proof {
            use_type_invariant(&*self);
        }
        self.mode = Mode::Panning
    }

    pub fn mode(&self) -> (r: Mode)
        ensures
            r == self.spec_mode(),
    {
        self.mode
    }
}


impl OrderListPage {
    /// Whether the page is well formed.
    pub fn get_wf(&self)
        ensures
            self.wf(),
    {
        proof {
            use_type_invariant(self);
        }
    }

    proof fn lemma_order_rows_in_page_area(&self, n: int)
        requires
            n <= 32,
        ensures
            all_within_rows(self.order_rows_cmds(n), 12, 49),
        decreases n,
    {
        if n > 0 {
            self.lemma_order_rows_in_page_area(n - 1);
            lemma_within_rows_concat(self.order_rows_cmds(n - 1), self.order_row_cmds(n - 1), 12, 49);
        }
    }

    proof fn lemma_channel_rows_in_page_area(n: int)
        requires
            n <= 32,
        ensures
            all_within_rows(Self::channel_rows_cmds(n), 12, 49),
        decreases n,
    {
        if n > 0 {
            Self::lemma_channel_rows_in_page_area(n - 1);
            lemma_within_rows_concat(Self::channel_rows_cmds(n - 1), Self::channel_row_cmds(n - 1), 12, 49);
        }
    }

    proof fn lemma_sliders_in_page_area(&self, n: int)
        requires
            self.wf(),
            n <= 64,
        ensures
            all_within_rows(self.sliders_cmds(n), 12, 49),
        decreases n,
    {
        if n > 0 {
            self.lemma_sliders_in_page_area(n - 1);
            let slider = self.slider_of(n);
            let selected = self.state().cursor == Cursor::VolPan(n as u8);
            assert(Self::slider_ok(slider, n - 1, SliderTarget::VolumeCurrent) || Self::slider_ok(
                slider,
                n - 1,
                SliderTarget::PanCurrent,
            ));
            crate::ui::widgets::slider::lemma_paint_in_row(slider, selected);
            lemma_within_rows_wider(
                slider.paint_cmds(selected),
                slider.spec_position().spec_y() as int,
                slider.spec_position().spec_y() as int,
                12,
                49,
            );
            lemma_within_rows_concat(self.sliders_cmds(n - 1), slider.paint_cmds(selected), 12, 49);
        }
    }

    /// The order list draws only into the page area, rows 12 to 49.
    pub proof fn lemma_in_page_area(&self)
        requires
            self.wf(),
        ensures
            all_within_rows(self.paint_cmds(), 12, 49),
            all_within_rows(Self::constant_cmds(), 12, 49),
    {
        self.lemma_order_rows_in_page_area(32);
        Self::lemma_channel_rows_in_page_area(32);
        self.lemma_sliders_in_page_area(64);
        lemma_within_rows_concat(self.order_rows_cmds(32), Self::channel_rows_cmds(32), 12, 49);
        lemma_within_rows_concat(self.order_rows_cmds(32) + Self::channel_rows_cmds(32), self.cursor_cmds(), 12, 49);
        lemma_within_rows_concat(
            self.order_rows_cmds(32) + Self::channel_rows_cmds(32) + self.cursor_cmds(),
            self.sliders_cmds(64),
            12,
            49,
        );
    }
    /// On the order list, a pressed `+` without modifiers marks the order under the cursor
    /// to be skipped, and a pressed `-` or `.` marks it as the end of the song. The other
    /// orders stay, the digit cursor goes back to the first digit, and the cursor moves on
    /// to the next order unless it is on the last one.
    pub proof fn lemma_mark_order(&self, key_event: KeyEvent, modifiers: Modifiers, c: char)
        requires
            cursor_ok(self.state()),
            self.state().cursor is Order,
            key_event.pressed,
            modifiers.spec_is_empty(),
            key_event.logical_key.is_char(c),
            c == '+' || c == '-' || c == '.',
        ensures
            ({
                let step = self.key_step(key_event, modifiers);
                let o = self.state().order;
                &&& step.response == PageResponse::RequestRedraw
                &&& step.state.pattern_order.len() == MAX_ORDERS
                &&& step.state.pattern_order[o] == if c == '+' {
                    PatternOrder::SkipOrder
                } else {
                    PatternOrder::EndOfSong
                }
                &&& forall|k: int|
                    0 <= k < MAX_ORDERS && k != o ==> #[trigger] step.state.pattern_order[k] == self.state().pattern_order[k]
                &&& step.state.order == if o < 255 { o + 1 } else { o }
                &&& step.state.digit == 0
                &&& step.state.cursor == Cursor::Order
            }),
    {
        assert(key_event.logical_key.first_char() == Some(c));
    }

    /// Every key keeps the cursors where they may be: the channel cursor on channels 1 to
    /// 64, the digit among the three, and the order cursor among the 32 shown orders.
    pub proof fn lemma_key_step_keeps_cursor(&self, key_event: KeyEvent, modifiers: Modifiers)
        requires
            cursor_ok(self.state()),
        ensures
            cursor_ok(self.key_step(key_event, modifiers).state),
    {
    }
}
} // verus!
