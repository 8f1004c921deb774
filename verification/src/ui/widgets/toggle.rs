//! A field that steps through a fixed list of choices with the space key.
use vstd::prelude::*;
use vstd::string::*;

use crate::coordinates::{CharPosition, CharRect, WINDOW_WIDTH_CHARS};
use crate::draw_buffer::{DrawBuffer, Paint};
use crate::input::{KeyEvent, Modifiers, NamedKey};
use crate::ui::widgets::{focus_response, NextWidget, StandardResponse, WidgetResponse};

verus! {

pub struct Toggle<T: Copy> {
    pos: CharPosition,
    width: usize,
    state: usize,
    next_widget: NextWidget,
    variants: Vec<(T, &'static str)>,
}

/// Whether every label of `variants` is ASCII and at most `width` long.
pub open spec fn labels_fit<T>(variants: Seq<(T, &'static str)>, width: int) -> bool {
    forall|i: int| 0 <= i < variants.len() ==> is_ascii(#[trigger] variants[i].1) && variants[i].1@.len() <= width
}

impl<T: Copy> Toggle<T> {
    #[verifier::type_invariant]
    spec fn inv(self) -> bool {
        &&& self.state < self.variants@.len()
        &&& self.pos.spec_x() + self.width < WINDOW_WIDTH_CHARS
        &&& labels_fit(self.variants@, self.width as int)
    }

    pub closed spec fn spec_pos(&self) -> CharPosition {
        self.pos
    }

    pub closed spec fn spec_width(&self) -> int {
        self.width as int
    }

    pub closed spec fn spec_state(&self) -> int {
        self.state as int
    }

    pub closed spec fn spec_next_widget(&self) -> NextWidget {
        self.next_widget
    }

    pub closed spec fn spec_variants(&self) -> Seq<(T, &'static str)> {
        self.variants@
    }

    /// The caller guarantees that the field fits into the window, that there are choices,
    /// and that their labels are ASCII and no wider than the field.
    pub fn new(pos: CharPosition, width: usize, next_widget: NextWidget, variants: Vec<(T, &'static str)>) -> (r: Self)
        requires
            pos.spec_x() + width < WINDOW_WIDTH_CHARS,
            variants@.len() >= 1,
            labels_fit(variants@, width as int),
        ensures
            r.spec_pos() == pos,
            r.spec_width() == width,
            r.spec_state() == 0,
            r.spec_next_widget() == next_widget,
            r.spec_variants() == variants@,
    {
        Self { pos, width, state: 0, next_widget, variants }
    }

    /// The choice after `state`: the next one, after the last one the first.
    pub open spec fn next_state(&self) -> int {
        if self.spec_state() + 1 >= self.spec_variants().len() {
            0
        } else {
            self.spec_state() + 1
        }
    }

    /// Moves to the next choice, after the last one to the first.
    pub fn next(&mut self)
        ensures
            final(self).spec_state() == old(self).next_state(),
            final(self).spec_state() < final(self).spec_variants().len(),
            final(self).spec_variants() == old(self).spec_variants(),
            final(self).spec_pos() == old(self).spec_pos(),
            final(self).spec_width() == old(self).spec_width(),
            final(self).spec_next_widget() == old(self).spec_next_widget(),
    {
        proof {
            use_type_invariant(&*self);
        }
        let len = self.variants.len();
        let next = if self.state + 1 >= len {
            0
        } else {
            self.state + 1
        };
        self.state = next;
    }

    /// The value of the current choice.
    pub fn get_variant(&self) -> (r: T)
        ensures
            r == self.spec_variants()[self.spec_state()].0,
            0 <= self.spec_state() < self.spec_variants().len(),
    {
        proof {
            use_type_invariant(self);
        }
        self.variants[self.state].0
    }

    /// Space without modifiers steps to the next choice and yields its value; other keys
    /// may move the focus.
    pub fn process_input(&mut self, modifiers: &Modifiers, key_event: &KeyEvent) -> (r: WidgetResponse<T>)
        ensures
            key_event.logical_key.is_named(NamedKey::Space) && modifiers.spec_is_empty() && key_event.pressed ==> {
                &&& final(self).spec_state() == old(self).next_state()
                &&& r.standard == StandardResponse::RequestRedraw
                &&& r.extra == Some(old(self).spec_variants()[old(self).next_state()].0)
            },
            !(key_event.logical_key.is_named(NamedKey::Space) && modifiers.spec_is_empty() && key_event.pressed) ==> {
                &&& final(self).spec_state() == old(self).spec_state()
                &&& r.standard == focus_response(old(self).spec_next_widget().target(*key_event, *modifiers))
                &&& r.extra is None
            },
            final(self).spec_variants() == old(self).spec_variants(),
            final(self).spec_pos() == old(self).spec_pos(),
            final(self).spec_width() == old(self).spec_width(),
            final(self).spec_next_widget() == old(self).spec_next_widget(),
    {
        if key_event.logical_key.named(NamedKey::Space) && modifiers.is_empty() && key_event.pressed {
            self.next();
            let variant = self.get_variant();
            WidgetResponse { standard: StandardResponse::RequestRedraw, extra: Some(variant) }
        } else {
            self.next_widget.process_key_event(key_event, modifiers)
        }
    }

    /// What drawing the field does: the cells behind the label cleared, then the label.
    pub open spec fn paint_cmds(&self, selected: bool) -> Seq<Paint> {
        let label = self.spec_variants()[self.spec_state()].1@;
        let x = self.spec_pos().spec_x();
        let y = self.spec_pos().spec_y();
        seq![
            Paint::Rect { color: 0, top: y, bot: y, left: x + label.len(), right: x + self.spec_width() },
            Paint::Text { text: label, x, y, fg: if selected { 0u8 } else { 2u8 }, bg: if selected { 3u8 } else { 0u8 } },
        ]
    }

    pub fn draw(&self, buffer: &mut DrawBuffer, selected: bool)
        requires
            old(buffer).wf(),
        ensures
            final(buffer).painted(old(buffer), self.paint_cmds(selected)),
    {
        proof {
            use_type_invariant(self);
        }
        let label = self.variants[self.state].1;
        let len = label.unicode_len();
        let x = self.pos.x();
        let y = self.pos.y();
        let ghost b0 = *buffer;
        buffer.draw_rect(0, CharRect::new(y, y, x + len, x + self.width));
        let ghost b1 = *buffer;
        let (fg_color, bg_color): (u8, u8) = if selected {
            (0, 3)
        } else {
            (2, 0)
        };
        buffer.draw_string(label, self.pos, fg_color, bg_color);
        proof {
            let c = self.paint_cmds(selected);
            DrawBuffer::lemma_painted_then(&b0, &b1, buffer, seq![c[0]], seq![c[1]]);
            assert(seq![c[0]] + seq![c[1]] =~= c);
        }
    }
}

} // verus!
