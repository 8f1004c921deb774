//! The pop-up that asks for the value of a slider.
use std::collections::VecDeque;
use vstd::prelude::*;
use vstd::string::*;

use crate::ascii_text::is_ascii_char;
use crate::coordinates::{CharPosition, CharRect};
use crate::draw_buffer::{DrawBuffer, Paint};
use crate::events::{GlobalEvent, SliderTarget};
use crate::input::{KeyEvent, Modifiers, NamedKey};
use crate::numbers::{parse_i16, parsed_i16};
use crate::ui::dialog::DialogResponse;
use crate::ui::widgets::text_in::{single_char_key, TextIn};
use crate::ui::widgets::{NextWidget, StandardResponse};

verus! {

pub struct SliderDialog {
    text: TextIn,
    min: i16,
    max: i16,
    return_event: SliderTarget,
}

impl SliderDialog {
    #[verifier::type_invariant]
    spec fn inv(self) -> bool {
        &&& self.text.spec_pos().spec_x() == 45
        &&& self.text.spec_pos().spec_y() == 26
        &&& self.text.spec_width() == 3
    }

    pub closed spec fn spec_text(&self) -> TextIn {
        self.text
    }

    pub closed spec fn spec_min(&self) -> int {
        self.min as int
    }

    pub closed spec fn spec_max(&self) -> int {
        self.max as int
    }

    pub closed spec fn spec_target(&self) -> SliderTarget {
        self.return_event
    }

    /// Whether this is the dialog that `new(first, min, max, target)` makes: the text
    /// field holds `first` with the cursor behind it.
    pub open spec fn is_new(&self, first: char, min: int, max: int, target: SliderTarget) -> bool {
        &&& self.spec_text().spec_text() == seq![first]
        &&& self.spec_text().spec_cursor() == 1
        &&& self.spec_min() == min
        &&& self.spec_max() == max
        &&& self.spec_target() == target
    }

    /// A dialog for a value in `min..=max` whose text starts as `inital_char`.
    pub fn new(inital_char: char, min: i16, max: i16, return_event: SliderTarget) -> (r: Self)
        requires
            is_ascii_char(inital_char),
        ensures
            r.is_new(inital_char, min as int, max as int, return_event),
    {
        let mut text_in = TextIn::new(CharPosition::new(45, 26), 3, NextWidget::empty());
        text_in.insert_char(inital_char);
        proof {
            assert(text_in.spec_text() =~= seq![inital_char]);
        }
        Self { text: text_in, min, max, return_event }
    }

    /// The value the text holds, if it is one in `min..=max`.
    pub open spec fn entered(&self) -> Option<int> {
        match parsed_i16(self.spec_text().spec_text()) {
            Some(v) => if self.spec_min() <= v <= self.spec_max() {
                Some(v)
            } else {
                None
            },
            None => None,
        }
    }

    /// The response to a key and the events sent: escape closes the dialog, enter closes
    /// it and sends the value entered, if there is one; other keys edit the text.
    pub open spec fn outcome(&self, key_event: KeyEvent, modifiers: Modifiers) -> (DialogResponse, Seq<GlobalEvent>) {
        if key_event.pressed && key_event.logical_key.is_named(NamedKey::Escape) {
            (DialogResponse::Close, Seq::empty())
        } else if key_event.pressed && key_event.logical_key.is_named(NamedKey::Enter) {
            (
                DialogResponse::Close,
                match self.entered() {
                    Some(v) => seq![self.spec_target().spec_event(v as i16)],
                    None => Seq::empty(),
                },
            )
        } else {
            (
                match self.spec_text().input(key_event, modifiers).standard {
                    StandardResponse::RequestRedraw => DialogResponse::RequestRedraw,
                    _ => DialogResponse::Nothing,
                },
                Seq::empty(),
            )
        }
    }

    /// The dialog after a key: keys other than escape and enter edit the text; the bounds
    /// and what the value is for stay.
    pub open spec fn after_key(&self, after: SliderDialog, key_event: KeyEvent, modifiers: Modifiers) -> bool {
        &&& !(key_event.pressed && (key_event.logical_key.is_named(NamedKey::Escape) || key_event.logical_key.is_named(
            NamedKey::Enter,
        ))) ==> {
            &&& after.spec_text().spec_text() == self.spec_text().input(key_event, modifiers).text
            &&& after.spec_text().spec_cursor() == self.spec_text().input(key_event, modifiers).cursor
        }
        &&& after.spec_min() == self.spec_min()
        &&& after.spec_max() == self.spec_max()
        &&& after.spec_target() == self.spec_target()
    }

    /// Escape closes the dialog; enter closes it and, if the text holds a value in the
    /// range, sends the event that sets it; other keys go to the text field.
    pub fn process_input(
        &mut self,
        key_event: &KeyEvent,
        modifiers: &Modifiers,
        events: &mut VecDeque<GlobalEvent>,
    ) -> (r: DialogResponse)
        requires
            single_char_key(*key_event),
        ensures
            r == old(self).outcome(*key_event, *modifiers).0,
            final(events)@ == old(events)@ + old(self).outcome(*key_event, *modifiers).1,
            key_event.pressed && key_event.logical_key.is_named(NamedKey::Escape) ==> r == DialogResponse::Close
                && final(events)@ == old(events)@,
            key_event.pressed && key_event.logical_key.is_named(NamedKey::Enter) ==> {
                &&& r == DialogResponse::Close
                &&& final(events)@ == match old(self).entered() {
                    Some(v) => old(events)@.push(old(self).spec_target().spec_event(v as i16)),
                    None => old(events)@,
                }
            },
            !(key_event.pressed && (key_event.logical_key.is_named(NamedKey::Escape)
                || key_event.logical_key.is_named(NamedKey::Enter))) ==> {
                &&& final(events)@ == old(events)@
                &&& final(self).spec_text().spec_text() == old(self).spec_text().input(*key_event, *modifiers).text
                &&& final(self).spec_text().spec_cursor() == old(self).spec_text().input(*key_event, *modifiers).cursor
                &&& r == match old(self).spec_text().input(*key_event, *modifiers).standard {
                    StandardResponse::RequestRedraw => DialogResponse::RequestRedraw,
                    _ => DialogResponse::Nothing,
                }
            },
            old(self).after_key(*final(self), *key_event, *modifiers),
    {
        proof {
            use_type_invariant(&*self);
        }
        if key_event.pressed {
            if key_event.logical_key.named(NamedKey::Escape) {
                return DialogResponse::Close;
            } else if key_event.logical_key.named(NamedKey::Enter) {
                if let Some(num) = parse_i16(self.text.get_str()) {
                    if self.min <= num && num <= self.max {
                        events.push_back(self.return_event.event(num));
                    }
                }
                return DialogResponse::Close;
            }
        }
        let mut text = self.take_text();
        let response = text.process_input(modifiers, key_event);
        *self = SliderDialog { text, ..*self };
        match response.standard {
            // the field is the only widget, so the focus stays
            StandardResponse::SwitchFocus(_) => DialogResponse::Nothing,
            StandardResponse::RequestRedraw => DialogResponse::RequestRedraw,
            StandardResponse::Nothing => DialogResponse::Nothing,
        }
    }

    /// Takes the text field out, leaving a fresh one.
    fn take_text(&mut self) -> (r: TextIn)
        ensures
            r == old(self).spec_text(),
            r.spec_width() == 3,
            r.spec_pos().spec_x() == 45,
            r.spec_pos().spec_y() == 26,
            final(self).spec_min() == old(self).spec_min(),
            final(self).spec_max() == old(self).spec_max(),
            final(self).spec_target() == old(self).spec_target(),
    {
        proof {
            use_type_invariant(&*self);
        }
        let mut taken = SliderDialog {
            text: TextIn::new(CharPosition::new(45, 26), 3, NextWidget::empty()),
            min: self.min,
            max: self.max,
            return_event: self.return_event,
        };
        std::mem::swap(self, &mut taken);
        taken.text
    }

    /// What drawing the dialog does: its box, the prompt, and the text field with its cursor.
    pub open spec fn paint_cmds(&self) -> Seq<Paint> {
        seq![
            Paint::Box { top: 24, bot: 28, left: 29, right: 50, space: 7, bg: 3, tl: 2, br: 2 },
            Paint::Rect { color: 2, top: 25, bot: 27, left: 30, right: 49 },
            Paint::Text { text: "Enter Value"@, x: 32, y: 26, fg: 3, bg: 2 },
            Paint::Box { top: 25, bot: 27, left: 44, right: 49, space: 7, bg: 2, tl: 1, br: 3 },
        ] + self.spec_text().paint_cmds(true)
    }

    pub fn draw(&self, buffer: &mut DrawBuffer)
        requires
            old(buffer).wf(),
        ensures
            final(buffer).painted(old(buffer), self.paint_cmds()),
    {
        let ghost b0 = *buffer;
        buffer.draw_in_box(CharRect::new(24, 28, 29, 50), 3, 2, 2, 1);
        let ghost b1 = *buffer;
        buffer.draw_rect(2, CharRect::new(25, 27, 30, 49));
        let ghost b2 = *buffer;
        proof {
            reveal_strlit("Enter Value");
        }
        buffer.draw_string("Enter Value", CharPosition::new(32, 26), 3, 2);
        let ghost b3 = *buffer;
        buffer.draw_in_box(CharRect::new(25, 27, 44, 49), 2, 1, 3, 1);
        let ghost b4 = *buffer;
        self.text.draw(buffer, true);
        proof {
            let c = self.paint_cmds();
            DrawBuffer::lemma_painted_then(&b0, &b1, &b2, seq![c[0]], seq![c[1]]);
            DrawBuffer::lemma_painted_then(&b0, &b2, &b3, seq![c[0]] + seq![c[1]], seq![c[2]]);
            DrawBuffer::lemma_painted_then(&b0, &b3, &b4, seq![c[0]] + seq![c[1]] + seq![c[2]], seq![c[3]]);
            DrawBuffer::lemma_painted_then(
                &b0,
                &b4,
                buffer,
                seq![c[0]] + seq![c[1]] + seq![c[2]] + seq![c[3]],
                self.spec_text().paint_cmds(true),
            );
            assert(seq![c[0]] + seq![c[1]] + seq![c[2]] + seq![c[3]] + self.spec_text().paint_cmds(true) =~= c);
        }
    }
}

} // verus!
