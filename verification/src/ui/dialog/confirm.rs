//! The pop-up that asks the user to confirm or cancel.
use std::collections::VecDeque;
use vstd::prelude::*;
use vstd::string::*;

use crate::coordinates::{CharPosition, CharRect};
use crate::draw_buffer::{DrawBuffer, Paint};
use crate::events::{GlobalEvent, SimpleEvent};
use crate::input::{KeyEvent, Modifiers, NamedKey};
use crate::ui::dialog::DialogResponse;
use crate::ui::widgets::button::Button;
use crate::ui::widgets::{NextWidget, StandardResponse};

verus! {

pub struct ConfirmDialog {
    text: &'static str,
    text_pos: CharPosition,
    // computed from the text length
    rect: CharRect,
    ok: Button<Option<SimpleEvent>>,
    cancel: Button<Option<SimpleEvent>>,
    selected: usize,
}

/// Half the width of a confirm dialog for a text of `len` characters.
pub open spec fn confirm_half_width(len: int) -> int {
    (if len + 10 > 22 { len + 10 } else { 22 }) / 2
}

impl ConfirmDialog {
    pub const OK: usize = 1;
    pub const CANCEL: usize = 2;

    #[verifier::type_invariant]
    spec fn inv(self) -> bool {
        &&& self.selected == Self::OK || self.selected == Self::CANCEL
        &&& self.ok.drawable()
        &&& self.cancel.drawable()
        &&& is_ascii(self.text)
        &&& self.text_pos.spec_x() + self.text@.len() <= 80
        &&& self.ok.spec_next_widget() == Self::ok_next()
        &&& self.cancel.spec_next_widget() == Self::cancel_next()
    }

    pub open spec fn ok_next() -> NextWidget {
        NextWidget { left: Some(2), right: Some(2), up: None, down: None, tab: Some(2), shift_tab: Some(2) }
    }

    pub open spec fn cancel_next() -> NextWidget {
        NextWidget { left: Some(1), right: Some(1), up: None, down: None, tab: Some(1), shift_tab: Some(1) }
    }

    pub closed spec fn spec_text(&self) -> &'static str {
        self.text
    }

    pub closed spec fn spec_text_pos(&self) -> CharPosition {
        self.text_pos
    }

    pub closed spec fn spec_rect(&self) -> CharRect {
        self.rect
    }

    pub closed spec fn spec_ok(&self) -> Button<Option<SimpleEvent>> {
        self.ok
    }

    pub closed spec fn spec_cancel(&self) -> Button<Option<SimpleEvent>> {
        self.cancel
    }

    pub closed spec fn spec_selected(&self) -> usize {
        self.selected
    }

    /// A dialog with `text` centred above an ok and a cancel button, which send `ok_event`
    /// or `cancel_event` if there is one. The dialog is at least 22 cells wide, else 10
    /// wider than the text; the text must leave room for that in the window.
    pub fn new(text: &'static str, ok_event: Option<SimpleEvent>, cancel_event: Option<SimpleEvent>) -> (r: Self)
        requires
            is_ascii(text),
            text@.len() <= 69,
        ensures
            r.spec_text() == text,
            r.spec_selected() == Self::OK,
            r.spec_rect().spec_top() == 25,
            r.spec_rect().spec_bot() == 32,
            r.spec_rect().spec_left() == 40 - confirm_half_width(text@.len() as int),
            r.spec_rect().spec_right() == 40 + confirm_half_width(text@.len() as int),
            r.spec_text_pos().spec_x() == 45 - confirm_half_width(text@.len() as int),
            r.spec_text_pos().spec_y() == 27,
            r.spec_ok().spec_value() == ok_event,
            r.spec_cancel().spec_value() == cancel_event,
            !r.spec_ok().spec_pressed(),
            !r.spec_cancel().spec_pressed(),
    {
        let len = text.unicode_len();
        let width = if len + 10 > 22 {
            len + 10
        } else {
            22
        };
        let per_side = width / 2;
        proof {
            reveal_strlit("  Ok");
            reveal_strlit("Cancel");
        }
        Self {
            text,
            text_pos: CharPosition::new(40 - per_side + 5, 27),
            selected: Self::OK,
            ok: Button::new(
                "  Ok",
                CharRect::new(29, 31, 41, 50),
                NextWidget {
                    left: Some(Self::CANCEL),
                    right: Some(Self::CANCEL),
                    up: None,
                    down: None,
                    tab: Some(Self::CANCEL),
                    shift_tab: Some(Self::CANCEL),
                },
                ok_event,
            ),
            cancel: Button::new(
                "Cancel",
                CharRect::new(29, 31, 30, 39),
                NextWidget {
                    left: Some(Self::OK),
                    right: Some(Self::OK),
                    up: None,
                    down: None,
                    tab: Some(Self::OK),
                    shift_tab: Some(Self::OK),
                },
                cancel_event,
            ),
            rect: CharRect::new(25, 32, 40 - per_side, 40 + per_side),
        }
    }

    /// What drawing the dialog does: the background, a border, the text and both buttons.
    pub open spec fn paint_cmds(&self) -> Seq<Paint> {
        let rect = self.spec_rect();
        seq![
            Paint::Rect {
                color: 2,
                top: rect.spec_top(),
                bot: rect.spec_bot(),
                left: rect.spec_left(),
                right: rect.spec_right(),
            },
            Paint::Border {
                top: rect.spec_top(),
                bot: rect.spec_bot(),
                left: rect.spec_left(),
                right: rect.spec_right(),
                thickness: 2,
                tl: 3,
                br: 3,
            },
            Paint::Text {
                text: self.spec_text()@,
                x: self.spec_text_pos().spec_x(),
                y: self.spec_text_pos().spec_y(),
                fg: 0,
                bg: 2,
            },
        ] + self.spec_ok().paint_cmds(self.spec_selected() == Self::OK, false) + self.spec_cancel().paint_cmds(
            self.spec_selected() == Self::CANCEL,
            false,
        )
    }

    pub fn draw(&self, buffer: &mut DrawBuffer)
        requires
            old(buffer).wf(),
        ensures
            final(buffer).painted(old(buffer), self.paint_cmds()),
    {
        proof {
            use_type_invariant(self);
        }
        let ghost b0 = *buffer;
        buffer.draw_rect(2, self.rect);
        let ghost b1 = *buffer;
        buffer.draw_out_border(self.rect, 3, 3, 2);
        let ghost b2 = *buffer;
        buffer.draw_string(self.text, self.text_pos, 0, 2);
        let ghost b3 = *buffer;
        self.ok.draw(buffer, self.selected == Self::OK);
        let ghost b4 = *buffer;
        self.cancel.draw(buffer, self.selected == Self::CANCEL);
        proof {
            let c = self.paint_cmds();
            let okc = self.ok.paint_cmds(self.selected == Self::OK, false);
            let cac = self.cancel.paint_cmds(self.selected == Self::CANCEL, false);
            DrawBuffer::lemma_painted_then(&b0, &b1, &b2, seq![c[0]], seq![c[1]]);
            DrawBuffer::lemma_painted_then(&b0, &b2, &b3, seq![c[0]] + seq![c[1]], seq![c[2]]);
            DrawBuffer::lemma_painted_then(&b0, &b3, &b4, seq![c[0]] + seq![c[1]] + seq![c[2]], okc);
            DrawBuffer::lemma_painted_then(&b0, &b4, buffer, seq![c[0]] + seq![c[1]] + seq![c[2]] + okc, cac);
            assert(seq![c[0]] + seq![c[1]] + seq![c[2]] + okc + cac =~= c);
        }
    }

    /// The selected button.
    pub open spec fn selected_button(&self) -> Button<Option<SimpleEvent>> {
        if self.spec_selected() == Self::OK {
            self.spec_ok()
        } else {
            self.spec_cancel()
        }
    }

    /// The response to a key and the events sent: escape without modifiers closes the
    /// dialog; a button that fires closes it and sends its event, if it has one.
    pub open spec fn outcome(&self, key_event: KeyEvent, modifiers: Modifiers) -> (DialogResponse, Seq<GlobalEvent>) {
        if key_event.logical_key.is_named(NamedKey::Escape) && modifiers.spec_is_empty() {
            (DialogResponse::Close, Seq::empty())
        } else {
            let (standard, extra) = self.selected_button().input_response(key_event, modifiers);
            match extra {
                Some(event) => (
                    DialogResponse::Close,
                    match event {
                        Some(e) => seq![e.spec_to_global()],
                        None => Seq::empty(),
                    },
                ),
                None => (
                    match standard {
                        StandardResponse::Nothing => DialogResponse::Nothing,
                        _ => DialogResponse::RequestRedraw,
                    },
                    Seq::empty(),
                ),
            }
        }
    }

    /// The dialog after a key: only the pressed state of the selected button and, on a
    /// change of focus, the selection change; escape without modifiers changes nothing.
    pub open spec fn after_key(&self, after: ConfirmDialog, key_event: KeyEvent, modifiers: Modifiers) -> bool {
        let escape = key_event.logical_key.is_named(NamedKey::Escape) && modifiers.spec_is_empty();
        &&& after.spec_text() == self.spec_text()
        &&& after.spec_rect() == self.spec_rect()
        &&& after.spec_text_pos() == self.spec_text_pos()
        &&& after.spec_ok().same_but_pressed(self.spec_ok())
        &&& after.spec_cancel().same_but_pressed(self.spec_cancel())
        &&& after.spec_ok().spec_pressed() == if self.spec_selected() == Self::OK && !escape {
            self.spec_ok().pressed_after(key_event)
        } else {
            self.spec_ok().spec_pressed()
        }
        &&& after.spec_cancel().spec_pressed() == if self.spec_selected() != Self::OK && !escape {
            self.spec_cancel().pressed_after(key_event)
        } else {
            self.spec_cancel().spec_pressed()
        }
        &&& self.outcome(key_event, modifiers).0 != DialogResponse::RequestRedraw ==> after.spec_selected()
            == self.spec_selected()
    }

    /// Escape without modifiers closes the dialog; other keys go to the selected button. A
    /// button that fires sends its event, if it has one, and closes the dialog; a change
    /// of focus selects the other button.
    pub fn process_input(
        &mut self,
        key_event: &KeyEvent,
        modifiers: &Modifiers,
        events: &mut VecDeque<GlobalEvent>,
    ) -> (r: DialogResponse)
        ensures
            r == old(self).outcome(*key_event, *modifiers).0,
            final(events)@ == old(events)@ + old(self).outcome(*key_event, *modifiers).1,
            old(self).after_key(*final(self), *key_event, *modifiers),
            key_event.logical_key.is_named(NamedKey::Escape) && modifiers.spec_is_empty() ==> r
                == DialogResponse::Close && final(events)@ == old(events)@,
            !(key_event.logical_key.is_named(NamedKey::Escape) && modifiers.spec_is_empty()) ==> {
                let (standard, extra) = old(self).selected_button().input_response(*key_event, *modifiers);
                match extra {
                    Some(event) => {
                        &&& r == DialogResponse::Close
                        &&& final(events)@ == match event {
                            Some(e) => old(events)@.push(e.spec_to_global()),
                            None => old(events)@,
                        }
                    },
                    None => {
                        &&& final(events)@ == old(events)@
                        &&& match standard {
                            StandardResponse::SwitchFocus(next) => r == DialogResponse::RequestRedraw
                                && final(self).spec_selected() == next,
                            StandardResponse::RequestRedraw => r == DialogResponse::RequestRedraw
                                && final(self).spec_selected() == old(self).spec_selected(),
                            StandardResponse::Nothing => r == DialogResponse::Nothing
                                && final(self).spec_selected() == old(self).spec_selected(),
                        }
                    },
                }
            },
    {
        proof {
            use_type_invariant(&*self);
        }
        if key_event.logical_key.named(NamedKey::Escape) && modifiers.is_empty() {
            return DialogResponse::Close;
        }
        let response = if self.selected == Self::OK {
            let mut ok = self.ok;
            let response = ok.process_input(modifiers, key_event);
            *self = ConfirmDialog { ok, ..*self };
            response
        } else {
            let mut cancel = self.cancel;
            let response = cancel.process_input(modifiers, key_event);
            *self = ConfirmDialog { cancel, ..*self };
            response
        };
        if let Some(event) = response.extra {
            if let Some(event) = event {
                events.push_back(event.to_global());
            }
            // a button that fires closes the dialog
            return DialogResponse::Close;
        }
        match response.standard {
            StandardResponse::SwitchFocus(next) => {
                *self = ConfirmDialog { selected: next, ..*self };
                DialogResponse::RequestRedraw
            },
            StandardResponse::RequestRedraw => DialogResponse::RequestRedraw,
            StandardResponse::Nothing => DialogResponse::Nothing,
        }
    }
}

} // verus!
