//! A button that is one of a group of choices: it shows itself pressed while its choice
//! is the current one, and a click on it yields its choice.
use vstd::prelude::*;

use crate::coordinates::CharRect;
use crate::draw_buffer::{DrawBuffer, Paint};
use crate::input::{KeyEvent, Modifiers};
use crate::ui::widgets::button::Button;
use crate::ui::widgets::{NextWidget, StandardResponse, WidgetResponse};

verus! {

pub struct ToggleButton<T: Copy> {
    button: Button<T>,
    variant: T,
}

impl<T: Copy> ToggleButton<T> {
    pub closed spec fn spec_button(&self) -> Button<T> {
        self.button
    }

    pub closed spec fn spec_variant(&self) -> T {
        self.variant
    }

    /// The caller guarantees that `rect` is at least three rows high. A click yields
    /// `variant`; the owner makes it the current choice.
    pub fn new(text: &'static str, rect: CharRect, next_widget: NextWidget, variant: T) -> (r: Self)
        requires
            rect.spec_bot() - rect.spec_top() >= 2,
        ensures
            r.spec_variant() == variant,
            r.spec_button().spec_text() == text,
            r.spec_button().spec_rect() == rect,
            !r.spec_button().spec_pressed(),
            r.spec_button().spec_next_widget() == next_widget,
            r.spec_button().spec_value() == variant,
    {
        Self { button: Button::new(text, rect, next_widget, variant), variant }
    }

    /// Draws the button, pressed while `current` says its choice is the current one.
    pub fn draw(&self, buffer: &mut DrawBuffer, selected: bool, current: bool)
        requires
            old(buffer).wf(),
            self.spec_button().drawable(),
        ensures
            final(buffer).painted(old(buffer), self.spec_button().paint_cmds(selected, current)),
    {
        self.button.draw_overwrite_pressed(buffer, selected, current)
    }

    /// Handled as by the button; a click yields the choice.
    pub fn process_input(&mut self, modifiers: &Modifiers, key_event: &KeyEvent) -> (r: WidgetResponse<T>)
        ensures
            (r.standard, r.extra) == old(self).spec_button().input_response(*key_event, *modifiers),
            final(self).spec_button().spec_pressed() == old(self).spec_button().pressed_after(*key_event),
            final(self).spec_button().spec_text() == old(self).spec_button().spec_text(),
            final(self).spec_button().spec_rect() == old(self).spec_button().spec_rect(),
            final(self).spec_button().spec_next_widget() == old(self).spec_button().spec_next_widget(),
            final(self).spec_button().spec_value() == old(self).spec_button().spec_value(),
            final(self).spec_variant() == old(self).spec_variant(),
    {
        self.button.process_input(modifiers, key_event)
    }
}

} // verus!
