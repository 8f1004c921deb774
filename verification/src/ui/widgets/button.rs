//! A push button: pressing and releasing space or enter on it yields its value.
use vstd::prelude::*;
use vstd::string::*;

use crate::coordinates::{CharPosition, CharRect};
use crate::draw_buffer::{on_screen, DrawBuffer, Paint};
use crate::input::{KeyEvent, Modifiers, NamedKey};
use crate::ui::widgets::{focus_response, NextWidget, StandardResponse, WidgetResponse};

verus! {

#[derive(Clone, Copy)]
pub struct Button<R: Copy> {
    text: &'static str,
    rect: CharRect,
    pressed: bool,
    next_widget: NextWidget,
    value: R,
}

/// Whether the key of `key_event` presses buttons.
pub open spec fn is_press_key(key_event: KeyEvent) -> bool {
    key_event.logical_key.is_named(NamedKey::Space) || key_event.logical_key.is_named(NamedKey::Enter)
}

impl<R: Copy> Button<R> {
    pub const TOPLEFT_COLOR: u8 = 3;
    pub const BOTRIGHT_COLOR: u8 = 1;

    pub closed spec fn spec_text(&self) -> &'static str {
        self.text
    }

    pub closed spec fn spec_rect(&self) -> CharRect {
        self.rect
    }

    pub closed spec fn spec_pressed(&self) -> bool {
        self.pressed
    }

    pub closed spec fn spec_next_widget(&self) -> NextWidget {
        self.next_widget
    }

    pub closed spec fn spec_value(&self) -> R {
        self.value
    }

    /// What every button satisfies: it is at least three rows high.
    pub open spec fn wf(&self) -> bool {
        self.spec_rect().spec_bot() - self.spec_rect().spec_top() >= 2
    }

    /// The caller guarantees that `rect` is at least three rows high; `value` is what a
    /// click yields.
    pub fn new(text: &'static str, rect: CharRect, next_widget: NextWidget, value: R) -> (r: Self)
        requires
            rect.spec_bot() - rect.spec_top() >= 2,
        ensures
            r.spec_text() == text,
            r.spec_rect() == rect,
            !r.spec_pressed(),
            r.spec_next_widget() == next_widget,
            r.spec_value() == value,
    {
        Button { text, rect, pressed: false, next_widget, value }
    }

    pub fn is_pressed(&self) -> (r: bool)
        ensures
            r == self.spec_pressed(),
    {
        self.pressed
    }

    /// What drawing the button does: the inside in the background colour, the box (sunken
    /// when pressed), the text two cells right of the left edge in the middle row.
    pub open spec fn paint_cmds(&self, selected: bool, pressed: bool) -> Seq<Paint> {
        let rect = self.spec_rect();
        let down = pressed || self.spec_pressed();
        seq![
            Paint::Rect {
                color: DrawBuffer::BACKGROUND_COLOR,
                top: rect.spec_top() + 1,
                bot: rect.spec_bot() - 1,
                left: rect.spec_left() + 1,
                right: rect.spec_right() - 1,
            },
            Paint::Box {
                top: rect.spec_top(),
                bot: rect.spec_bot(),
                left: rect.spec_left(),
                right: rect.spec_right(),
                space: 6,
                bg: DrawBuffer::BACKGROUND_COLOR,
                tl: if down { Self::BOTRIGHT_COLOR } else { Self::TOPLEFT_COLOR },
                br: if down { Self::TOPLEFT_COLOR } else { Self::BOTRIGHT_COLOR },
            },
            Paint::Text {
                text: self.spec_text()@,
                x: rect.spec_left() + 2,
                y: (rect.spec_bot() - rect.spec_top()) / 2 + rect.spec_top(),
                fg: if selected { 11u8 } else { 0u8 },
                bg: DrawBuffer::BACKGROUND_COLOR,
            },
        ]
    }

    /// What drawing needs beyond the button itself: room for the inside, and an ASCII text
    /// that fits into the window.
    pub open spec fn drawable(&self) -> bool {
        &&& self.wf()
        &&& self.spec_rect().spec_right() - self.spec_rect().spec_left() >= 2
        &&& is_ascii(self.spec_text())
        &&& self.spec_rect().spec_left() + 2 + self.spec_text()@.len() <= 80
    }

    pub fn draw(&self, buffer: &mut DrawBuffer, selected: bool)
        requires
            old(buffer).wf(),
            self.drawable(),
        ensures
            final(buffer).painted(old(buffer), self.paint_cmds(selected, false)),
    {
        self.draw_overwrite_pressed(buffer, selected, false);
    }

    /// Draws the button, pressed if `pressed` or if it is pressed itself.
    pub fn draw_overwrite_pressed(&self, buffer: &mut DrawBuffer, selected: bool, pressed: bool)
        requires
            old(buffer).wf(),
            self.drawable(),
        ensures
            final(buffer).painted(old(buffer), self.paint_cmds(selected, pressed)),
    {
        let ghost b0 = *buffer;
        // fill behind the text
        buffer.draw_rect(
            DrawBuffer::BACKGROUND_COLOR,
            CharRect::new(self.rect.top() + 1, self.rect.bot() - 1, self.rect.left() + 1, self.rect.right() - 1),
        );
        let ghost b1 = *buffer;
        let box_colors = if pressed || self.pressed {
            (Self::BOTRIGHT_COLOR, Self::TOPLEFT_COLOR)
        } else {
            (Self::TOPLEFT_COLOR, Self::BOTRIGHT_COLOR)
        };
        buffer.draw_box(self.rect, DrawBuffer::BACKGROUND_COLOR, box_colors.0, box_colors.1);
        let ghost b2 = *buffer;
        let text_color: u8 = if selected {
            11
        } else {
            0
        };
        buffer.draw_string(
            self.text,
            CharPosition::new(self.rect.left() + 2, (self.rect.bot() - self.rect.top()) / 2 + self.rect.top()),
            text_color,
            DrawBuffer::BACKGROUND_COLOR,
        );
        proof {
            let cmds = self.paint_cmds(selected, pressed);
            DrawBuffer::lemma_painted_then(&b0, &b1, &b2, seq![cmds[0]], seq![cmds[1]]);
            DrawBuffer::lemma_painted_then(&b0, &b2, buffer, seq![cmds[0]] + seq![cmds[1]], seq![cmds[2]]);
            assert(seq![cmds[0]] + seq![cmds[1]] + seq![cmds[2]] =~= cmds);
        }
    }

    /// Drawing a button with `draw_overwrite_pressed` depends on whether it is shown
    /// pressed, `pressed || self.pressed`, and not on which of the two makes it so: two
    /// buttons that differ at most in being pressed, drawn alike selected and alike shown
    /// pressed onto buffers with the same frame, leave the same frame. The box is drawn
    /// sunken (top left in the bottom right colour and the other way round) exactly when
    /// the button is shown pressed.
    pub proof fn lemma_draw_overwrite_pressed_shown(
        b1: Self,
        b2: Self,
        selected: bool,
        p: bool,
        q: bool,
        d1: DrawBuffer,
        d2: DrawBuffer,
        e1: DrawBuffer,
        e2: DrawBuffer,
    )
        requires
            b1.same_but_pressed(b2),
            (p || b1.spec_pressed()) == (q || b2.spec_pressed()),
            d1.wf(),
            d2.wf(),
            d1.frame() == d2.frame(),
            e1.painted(&d1, b1.paint_cmds(selected, p)),
            e2.painted(&d2, b2.paint_cmds(selected, q)),
        ensures
            b1.paint_cmds(selected, p) == b2.paint_cmds(selected, q),
            e1.frame() == e2.frame(),
            b1.paint_cmds(selected, p)[1] == (Paint::Box {
                top: b1.spec_rect().spec_top(),
                bot: b1.spec_rect().spec_bot(),
                left: b1.spec_rect().spec_left(),
                right: b1.spec_rect().spec_right(),
                space: 6,
                bg: DrawBuffer::BACKGROUND_COLOR,
                tl: if p || b1.spec_pressed() { Self::BOTRIGHT_COLOR } else { Self::TOPLEFT_COLOR },
                br: if p || b1.spec_pressed() { Self::TOPLEFT_COLOR } else { Self::BOTRIGHT_COLOR },
            }),
    {
        assert(b1.paint_cmds(selected, p) =~= b2.paint_cmds(selected, q));
        assert forall|x: int, y: int| on_screen(x, y) implies #[trigger] e1.pixel(x, y) == e2.pixel(x, y) by {
            assert(d1.pixel(x, y) == d2.pixel(x, y));
        }
        DrawBuffer::lemma_same_pixels_same_frame(&e1, &e2);
    }

    /// The response to `key_event`: a press of space or enter presses the button, the
    /// release of a pressed button yields its value; other keys may move the focus.
    pub open spec fn input_response(&self, key_event: KeyEvent, modifiers: Modifiers) -> (StandardResponse, Option<R>) {
        if is_press_key(key_event) {
            if key_event.repeat || key_event.pressed {
                (StandardResponse::Nothing, None)
            } else {
                (StandardResponse::RequestRedraw, if self.spec_pressed() { Some(self.spec_value()) } else { None })
            }
        } else {
            (focus_response(self.spec_next_widget().target(key_event, modifiers)), None)
        }
    }

    /// Whether the two buttons differ at most in being pressed.
    pub open spec fn same_but_pressed(&self, other: Self) -> bool {
        &&& self.spec_text() == other.spec_text()
        &&& self.spec_rect() == other.spec_rect()
        &&& self.spec_next_widget() == other.spec_next_widget()
        &&& self.spec_value() == other.spec_value()
    }

    /// Whether the button is pressed after `key_event`.
    pub open spec fn pressed_after(&self, key_event: KeyEvent) -> bool {
        if is_press_key(key_event) && !key_event.repeat {
            key_event.pressed
        } else {
            self.spec_pressed()
        }
    }

    pub fn process_input(&mut self, modifiers: &Modifiers, key_event: &KeyEvent) -> (r: WidgetResponse<R>)
        ensures
            (r.standard, r.extra) == old(self).input_response(*key_event, *modifiers),
            final(self).spec_pressed() == old(self).pressed_after(*key_event),
            final(self).spec_text() == old(self).spec_text(),
            final(self).spec_rect() == old(self).spec_rect(),
            final(self).spec_next_widget() == old(self).spec_next_widget(),
            final(self).spec_value() == old(self).spec_value(),
    {
        let key = &key_event.logical_key;
        if key.named(NamedKey::Space) || key.named(NamedKey::Enter) {
            if !key_event.repeat {
                if key_event.pressed {
                    self.pressed = true;
                    return WidgetResponse::none();
                } else {
                    // only a release after a press of this very button triggers it
                    let response = if self.pressed {
                        Some(self.value)
                    } else {
                        None
                    };
                    self.pressed = false;
                    return WidgetResponse { standard: StandardResponse::RequestRedraw, extra: response };
                }
            }
        } else {
            return self.next_widget.process_key_event(key_event, modifiers);
        }
        WidgetResponse::none()
    }
}

} // verus!
