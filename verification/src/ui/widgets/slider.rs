//! A number kept inside bounds, and the slider that shows and edits one.
use std::collections::VecDeque;
use vstd::prelude::*;
use vstd::string::*;

use crate::coordinates::{CharPosition, CharRect, PixelRect, FONT_SIZE, WINDOW_WIDTH_CHARS};
use crate::draw_buffer::{all_within_rows, DrawBuffer, Paint};
use crate::events::{GlobalEvent, SliderTarget};
use crate::input::{Key, KeyEvent, Modifiers, NamedKey};
use crate::numbers::{padded3, padded_three};
use crate::ui::dialog::slider_dialog::SliderDialog;
use crate::ui::dialog::Dialog;
use crate::ui::widgets::{focus_response, NextWidget, StandardResponse, WidgetResponse};

verus! {

/// `value` moved into `min..=max`.
pub open spec fn clamp(value: int, min: int, max: int) -> int {
    if value > max {
        max
    } else if value < min {
        min
    } else {
        value
    }
}

/// `a + b` saturated to the range of `i16`, as `i16::saturating_add` computes it.
pub open spec fn saturate_i16(v: int) -> int {
    clamp(v, i16::MIN as int, i16::MAX as int)
}

/// `v / 2` rounded towards zero, as integer division in Rust does.
pub open spec fn half_toward_zero(v: int) -> int {
    if v >= 0 {
        v / 2
    } else {
        -((-v) / 2)
    }
}

/// `a + b` as `i16::saturating_add` computes it.
pub fn saturating_add_i16(a: i16, b: i16) -> (r: i16)
    ensures
        r == saturate_i16(a + b),
{
    let wide = a as i32 + b as i32;
    if wide > i16::MAX as i32 {
        i16::MAX
    } else if wide < i16::MIN as i32 {
        i16::MIN
    } else {
        wide as i16
    }
}

/// `a - b` as `i16::saturating_sub` computes it.
pub fn saturating_sub_i16(a: i16, b: i16) -> (r: i16)
    ensures
        r == saturate_i16(a - b),
{
    let wide = a as i32 - b as i32;
    if wide > i16::MAX as i32 {
        i16::MAX
    } else if wide < i16::MIN as i32 {
        i16::MIN
    } else {
        wide as i16
    }
}

/// An `i16` that stays within `min..=max`.
#[derive(Debug, Clone, Copy)]
pub struct BoundNumber {
    inner: i16,
    min: i16,
    max: i16,
}

impl BoundNumber {
    #[verifier::type_invariant]
    spec fn inv(self) -> bool {
        self.min <= self.inner <= self.max
    }

    pub closed spec fn value(self) -> int {
        self.inner as int
    }

    pub closed spec fn spec_min(self) -> int {
        self.min as int
    }

    pub closed spec fn spec_max(self) -> int {
        self.max as int
    }

    /// What every bound number satisfies: its value lies within its bounds.
    pub open spec fn wf(self) -> bool {
        self.spec_min() <= self.value() <= self.spec_max()
    }

    /// `value` moved into `min..=max`.
    pub fn new_saturating(value: i16, min: i16, max: i16) -> (r: Self)
        requires
            min <= max,
        ensures
            r.value() == clamp(value as int, min as int, max as int),
            r.spec_min() == min,
            r.spec_max() == max,
    {
        if value > max {
            Self { inner: max, min, max }
        } else if value < min {
            Self { inner: min, min, max }
        } else {
            Self { inner: value, min, max }
        }
    }

    /// The caller guarantees `min <= value <= max`.
    pub fn new(value: i16, min: i16, max: i16) -> (r: Self)
        requires
            min <= value <= max,
        ensures
            r.value() == value,
            r.spec_min() == min,
            r.spec_max() == max,
    {
        Self { inner: value, min, max }
    }

    pub fn get(&self) -> (r: i16)
        ensures
            r == self.value(),
            self.wf(),
    {
        proof {
            use_type_invariant(self);
        }
        self.inner
    }

    pub fn min(&self) -> (r: i16)
        ensures
            r == self.spec_min(),
    {
        self.min
    }

    pub fn max(&self) -> (r: i16)
        ensures
            r == self.spec_max(),
    {
        self.max
    }

    /// Sets the value, moved into the bounds.
    pub fn set_saturating(&mut self, value: i16)
        ensures
            final(self).value() == clamp(value as int, old(self).spec_min(), old(self).spec_max()),
            final(self).spec_min() == old(self).spec_min(),
            final(self).spec_max() == old(self).spec_max(),
    {
        proof {
            use_type_invariant(&*self);
        }
        *self = Self::new_saturating(value, self.min, self.max);
    }

    /// Sets the value if it lies within the bounds, the bounds included.
    pub fn try_set(&mut self, value: i16) -> (r: Result<(), ()>)
        ensures
            r is Ok <==> old(self).spec_min() <= value <= old(self).spec_max(),
            final(self).value() == if r is Ok { value as int } else { old(self).value() },
            final(self).spec_min() == old(self).spec_min(),
            final(self).spec_max() == old(self).spec_max(),
    {
        proof {
            use_type_invariant(&*self);
        }
        if self.min <= value && value <= self.max {
            *self = Self::new(value, self.min, self.max);
            Ok(())
        } else {
            Err(())
        }
    }

    /// `min + max / 2`, the division rounding towards zero.
    pub fn get_middle(&self) -> (r: i16)
        requires
            i16::MIN <= self.spec_min() + half_toward_zero(self.spec_max()) <= i16::MAX,
        ensures
            r == self.spec_min() + half_toward_zero(self.spec_max()),
    {
        self.min + (self.max / 2)
    }

    /// Adds `rhs` (which may be negative), saturating at the bounds.
    pub fn add_assign(&mut self, rhs: i16)
        ensures
            final(self).value() == clamp(
                saturate_i16(old(self).value() + rhs),
                old(self).spec_min(),
                old(self).spec_max(),
            ),
            final(self).spec_min() == old(self).spec_min(),
            final(self).spec_max() == old(self).spec_max(),
    {
        proof {
            use_type_invariant(&*self);
        }
        let new = saturating_add_i16(self.inner, rhs);
        // both bounds matter, as rhs may be negative
        self.set_saturating(new);
    }

    /// Subtracts `rhs` (which may be negative), saturating at the bounds.
    pub fn sub_assign(&mut self, rhs: i16)
        ensures
            final(self).value() == clamp(
                saturate_i16(old(self).value() - rhs),
                old(self).spec_min(),
                old(self).spec_max(),
            ),
            final(self).spec_min() == old(self).spec_min(),
            final(self).spec_max() == old(self).spec_max(),
    {
        proof {
            use_type_invariant(&*self);
        }
        let new = saturating_sub_i16(self.inner, rhs);
        self.set_saturating(new);
    }
}

/// How far a slider moves on one arrow key: 1, times 2 with super, times 4 with shift,
/// times 8 with alt.
pub open spec fn step(modifiers: Modifiers) -> int {
    (if modifiers.super_key { 2int } else { 1int }) * (if modifiers.shift { 4int } else { 1int }) * (if modifiers.alt {
        8int
    } else {
        1int
    })
}

/// The pixel offset of the cursor of a slider `width` cells wide showing `value` of
/// `min..=max`: a border pixel, then the value scaled to the width.
pub open spec fn cursor_offset(value: int, min: int, max: int, width: int) -> int {
    if max == min {
        0
    } else {
        1 + (value - min) * (width * 8 + 1) / (max - min)
    }
}

/// A horizontal slider for a bounded number. It needs five cells right of its width to
/// show the value.
pub struct Slider {
    number: BoundNumber,
    position: CharPosition,
    width: usize,
    next_widget: NextWidget,
    dialog_return: SliderTarget,
}

impl Slider {
    #[verifier::type_invariant]
    spec fn inv(self) -> bool {
        &&& self.number.spec_min() >= -99
        &&& self.number.spec_max() <= 999
        &&& self.position.spec_x() + self.width + 5 < WINDOW_WIDTH_CHARS
        &&& self.next_widget.left is None
        &&& self.next_widget.right is None
    }

    pub closed spec fn spec_number(&self) -> BoundNumber {
        self.number
    }

    pub closed spec fn spec_position(&self) -> CharPosition {
        self.position
    }

    pub closed spec fn spec_width(&self) -> int {
        self.width as int
    }

    pub closed spec fn spec_next_widget(&self) -> NextWidget {
        self.next_widget
    }

    pub closed spec fn spec_target(&self) -> SliderTarget {
        self.dialog_return
    }

    pub open spec fn value(&self) -> int {
        self.spec_number().value()
    }

    /// What every slider satisfies.
    pub open spec fn wf(&self) -> bool {
        &&& self.spec_number().wf()
        &&& self.spec_number().spec_min() >= -99
        &&& self.spec_number().spec_max() <= 999
        &&& self.spec_position().spec_x() + self.spec_width() + 5 < WINDOW_WIDTH_CHARS
    }

    /// Whether only the value may differ between the two sliders.
    pub open spec fn same_frame(&self, other: &Self) -> bool {
        &&& self.spec_number().spec_min() == other.spec_number().spec_min()
        &&& self.spec_number().spec_max() == other.spec_number().spec_max()
        &&& self.spec_position() == other.spec_position()
        &&& self.spec_width() == other.spec_width()
        &&& self.spec_next_widget() == other.spec_next_widget()
        &&& self.spec_target() == other.spec_target()
    }

    /// The caller guarantees `min <= initial <= max`, bounds in `-99..=999`, room in the
    /// window for the slider and the five cells right of it, and no left or right
    /// neighbours (those keys move the slider).
    pub fn new(
        inital_value: i16,
        min: i16,
        max: i16,
        position: CharPosition,
        width: usize,
        next_widget: NextWidget,
        dialog_return: SliderTarget,
    ) -> (r: Self)
        requires
            min <= inital_value <= max,
            next_widget.left is None,
            next_widget.right is None,
            min >= -99,
            max <= 999,
            position.spec_x() + width + 5 < WINDOW_WIDTH_CHARS,
        ensures
            r.value() == inital_value,
            r.spec_number().spec_min() == min,
            r.spec_number().spec_max() == max,
            r.spec_position() == position,
            r.spec_width() == width,
            r.spec_next_widget() == next_widget,
            r.spec_target() == dialog_return,
    {
        Self { number: BoundNumber::new(inital_value, min, max), position, width, next_widget, dialog_return }
    }

    pub fn get(&self) -> (r: i16)
        ensures
            r == self.value(),
            self.wf(),
    {
        proof {
            use_type_invariant(self);
        }
        self.number.get()
    }

    /// Sets the value if it lies within the bounds, the bounds included, and then returns it.
    pub fn try_set(&mut self, value: i16) -> (r: Result<i16, ()>)
        ensures
            r is Ok <==> old(self).spec_number().spec_min() <= value <= old(self).spec_number().spec_max(),
            r is Ok ==> r == Ok::<i16, ()>(value),
            final(self).value() == if r is Ok { value as int } else { old(self).value() },
            final(self).same_frame(old(self)),
    {
        proof {
            use_type_invariant(&*self);
        }
        let mut number = self.number;
        let result = number.try_set(value);
        *self = Slider { number, ..*self };
        match result {
            Ok(()) => Ok(value),
            Err(()) => Err(()),
        }
    }

    /// The value after an arrow key: right adds, left subtracts the step, up to the bounds.
    pub open spec fn moved_value(&self, right: bool, modifiers: Modifiers) -> int {
        let n = self.spec_number();
        clamp(
            saturate_i16(n.value() + if right { step(modifiers) } else { -step(modifiers) }),
            n.spec_min(),
            n.spec_max(),
        )
    }

    /// The response to `key_event` and the value afterwards: arrows move the value unless it
    /// is at that end, and the response carries the new value; a digit opens the dialog
    /// that asks for a value (pushed as an event); other keys may move the focus.
    pub open spec fn input(&self, key_event: KeyEvent, modifiers: Modifiers) -> (StandardResponse, Option<i16>, int) {
        let key = key_event.logical_key;
        let n = self.spec_number();
        if !key_event.pressed {
            (StandardResponse::Nothing, None, n.value())
        } else if key.is_named(NamedKey::ArrowRight) {
            if n.value() == n.spec_max() {
                (StandardResponse::Nothing, None, n.value())
            } else {
                let v = self.moved_value(true, modifiers);
                (StandardResponse::RequestRedraw, Some(v as i16), v)
            }
        } else if key.is_named(NamedKey::ArrowLeft) {
            if n.value() == n.spec_min() {
                (StandardResponse::Nothing, None, n.value())
            } else {
                let v = self.moved_value(false, modifiers);
                (StandardResponse::RequestRedraw, Some(v as i16), v)
            }
        } else if key is Character {
            (StandardResponse::Nothing, None, n.value())
        } else {
            (focus_response(self.spec_next_widget().target(key_event, modifiers)), None, n.value())
        }
    }

    /// Whether `key_event` opens the dialog that asks for a value: a pressed key whose
    /// text starts with a digit.
    pub open spec fn opens_dialog(&self, key_event: KeyEvent) -> bool {
        &&& key_event.pressed
        &&& key_event.logical_key is Character
        &&& key_event.logical_key.first_char() matches Some(c) && '0' <= c <= '9'
    }

    /// The events after `key_event` reached the slider with `before` queued: the dialog
    /// that asks for a value added when the key opens it, else nothing.
    pub open spec fn events_after(&self, key_event: KeyEvent, before: Seq<GlobalEvent>, after: Seq<GlobalEvent>) -> bool {
        if self.opens_dialog(key_event) {
            &&& after.len() == before.len() + 1
            &&& after.take(before.len() as int) == before
            &&& after.last() matches GlobalEvent::OpenDialog(Dialog::Slider(d)) && d.is_new(
                key_event.logical_key.first_char().unwrap(),
                self.spec_number().spec_min(),
                self.spec_number().spec_max(),
                self.spec_target(),
            )
        } else {
            after == before
        }
    }

    pub fn process_input(
        &mut self,
        modifiers: &Modifiers,
        key_event: &KeyEvent,
        events: &mut VecDeque<GlobalEvent>,
    ) -> (r: WidgetResponse<i16>)
        ensures
            (r.standard, r.extra, final(self).value()) == old(self).input(*key_event, *modifiers),
            final(self).same_frame(old(self)),
            old(self).events_after(*key_event, old(events)@, final(events)@),
    {
        proof {
            use_type_invariant(&*self);
        }
        if !key_event.pressed {
            return WidgetResponse::none();
        }
        let key = &key_event.logical_key;
        if key.named(NamedKey::ArrowRight) || key.named(NamedKey::ArrowLeft) {
            let right = key.named(NamedKey::ArrowRight);
            // at the end nothing changes
            if right && self.number.get() == self.number.max() {
                return WidgetResponse::none();
            }
            if !right && self.number.get() == self.number.min() {
                return WidgetResponse::none();
            }
            let mut amount: i16 = 1;
            if modifiers.super_key {
                amount *= 2;
            }
            if modifiers.shift {
                amount *= 4;
            }
            if modifiers.alt {
                amount *= 8;
            }
            let mut number = self.number;
            if right {
                number.add_assign(amount);
            } else {
                number.add_assign(-amount);
            }
            *self = Slider { number, ..*self };
            return WidgetResponse { standard: StandardResponse::RequestRedraw, extra: Some(number.get()) };
        } else if let Key::Character(_) = key {
            // set the value directly in a pop-up
            if let Some(first_char) = key.get_first_char() {
                if '0' <= first_char && first_char <= '9' {
                    let dialog = SliderDialog::new(
                        first_char,
                        self.number.min(),
                        self.number.max(),
                        self.dialog_return,
                    );
                    events.push_back(GlobalEvent::OpenDialog(Dialog::Slider(dialog)));
                    proof {
                        assert(events@.take(old(events)@.len() as int) =~= old(events)@);
                    }
                    return WidgetResponse::none();
                }
            }
        } else {
            return self.next_widget.process_key_event(key_event, modifiers);
        }
        WidgetResponse::none()
    }

    /// What drawing the slider does: the value right of it, the track, and the cursor at
    /// the place of the value.
    pub open spec fn paint_cmds(&self, selected: bool) -> Seq<Paint> {
        let x = self.spec_position().spec_x();
        let y = self.spec_position().spec_y();
        let n = self.spec_number();
        let offset = cursor_offset(n.value(), n.spec_min(), n.spec_max(), self.spec_width());
        seq![
            Paint::Text { text: padded3(n.value()), x: x + self.spec_width() + 2, y, fg: 1, bg: 2 },
            Paint::Rect { color: 0, top: y, bot: y, left: x, right: x + self.spec_width() },
            Paint::Pixels {
                color: if selected { 3u8 } else { 2u8 },
                top: y * 8 + 1,
                bot: y * 8 + 6,
                left: x * 8 + offset,
                right: x * 8 + offset + 4,
            },
        ]
    }

    pub fn draw(&self, buffer: &mut DrawBuffer, selected: bool)
        requires
            old(buffer).wf(),
        ensures
            final(buffer).painted(old(buffer), self.paint_cmds(selected)),
    {
        proof {
            use_type_invariant(self);
            use_type_invariant(&self.number);
        }
        let x = self.position.x();
        let y = self.position.y();
        let value = self.number.get();
        let min = self.number.min();
        let max = self.number.max();
        let ghost b0 = *buffer;
        let text = padded_three(value);
        buffer.draw_string(text.as_str(), self.position + (self.width + 2, 0), 1, 2);
        let ghost b1 = *buffer;
        buffer.draw_rect(0, CharRect::new(y, y, x, x + self.width));
        let ghost b2 = *buffer;
        let cursor_pos: usize = if max == min {
            0
        } else {
            // both shifted so that min is 0
            let num_possible_values = (max - min) as usize;
            let shifted = (value - min) as usize;
            proof {
                let w: int = self.width * 8 + 1;
                let s: int = shifted as int;
                let n: int = num_possible_values as int;
                assert(s * w <= n * w) by (nonlinear_arith)
                    requires
                        s <= n,
                        w > 0,
                ;
                assert(s * w / n <= w) by (nonlinear_arith)
                    requires
                        s * w <= n * w,
                        n > 0,
                        w > 0,
                ;
                assert(s * w <= 1100 * 700) by (nonlinear_arith)
                    requires
                        0 <= s <= 1100,
                        0 < w <= 700,
                ;
            }
            1 + shifted * (self.width * FONT_SIZE + 1) / num_possible_values
        };
        let color: u8 = if selected {
            3
        } else {
            2
        };
        let cursor_pixel_rect = PixelRect::new(
            // a free row above
            (y * FONT_SIZE) + 1,
            // and below, inside the character row
            (y * FONT_SIZE) + (FONT_SIZE - 2),
            (x * FONT_SIZE) + cursor_pos + 4,
            (x * FONT_SIZE) + cursor_pos,
        );
        buffer.draw_pixel_rect(color, cursor_pixel_rect);
        proof {
            let cmds = self.paint_cmds(selected);
            assert(text@ == padded3(value as int));
            DrawBuffer::lemma_painted_then(&b0, &b1, &b2, seq![cmds[0]], seq![cmds[1]]);
            DrawBuffer::lemma_painted_then(&b0, &b2, buffer, seq![cmds[0]] + seq![cmds[1]], seq![cmds[2]]);
            assert(seq![cmds[0]] + seq![cmds[1]] + seq![cmds[2]] =~= cmds);
        }
    }
}


/// Whatever key a well formed slider gets, its value stays within its bounds.
pub proof fn lemma_input_in_bounds(slider: Slider, key_event: KeyEvent, modifiers: Modifiers)
    requires
        slider.wf(),
    ensures
        slider.spec_number().spec_min() <= slider.input(key_event, modifiers).2 <= slider.spec_number().spec_max(),
{
}


/// A slider draws only into its own character row.
pub proof fn lemma_paint_in_row(slider: Slider, selected: bool)
    ensures
        all_within_rows(slider.paint_cmds(selected), slider.spec_position().spec_y() as int, slider.spec_position().spec_y() as int),
{
}

} // verus!
