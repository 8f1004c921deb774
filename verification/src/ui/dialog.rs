//! Pop-ups over the page: they take all input while they are open.
pub mod confirm;
pub mod page_menu;
pub mod slider_dialog;
use std::collections::VecDeque;
use vstd::prelude::*;

use crate::draw_buffer::{DrawBuffer, Paint};
use crate::events::GlobalEvent;
use crate::input::{KeyEvent, Modifiers};
use crate::ui::dialog::confirm::ConfirmDialog;
use crate::ui::dialog::page_menu::PageMenu;
use crate::ui::dialog::slider_dialog::SliderDialog;
use crate::ui::widgets::text_in::{is_single_char_key, single_char_key};

verus! {

#[derive(Debug, Clone, Copy, PartialEq, Eq, Structural)]
pub enum DialogResponse {
    RequestRedraw,
    Close,
    Nothing,
}

/// The dialogs there are.
pub enum Dialog {
    Confirm(ConfirmDialog),
    Menu(PageMenu),
    Slider(SliderDialog),
}

impl Dialog {
    /// The response of the dialog to a key and the events it sends.
    pub open spec fn outcome(&self, key_event: KeyEvent, modifiers: Modifiers) -> (DialogResponse, Seq<GlobalEvent>) {
        match self {
            Dialog::Confirm(d) => d.outcome(key_event, modifiers),
            Dialog::Menu(d) => (d.step(key_event, modifiers).2, d.step(key_event, modifiers).1),
            Dialog::Slider(d) => d.outcome(key_event, modifiers),
        }
    }

    /// What drawing the dialog does.
    pub open spec fn paint_cmds(&self) -> Seq<Paint> {
        match self {
            Dialog::Confirm(d) => d.paint_cmds(),
            Dialog::Menu(d) => d.paint_cmds(),
            Dialog::Slider(d) => d.paint_cmds(),
        }
    }

    /// The dialog after a key, as each kind of dialog handles it.
    pub open spec fn after_key(&self, after: Dialog, key_event: KeyEvent, modifiers: Modifiers) -> bool {
        match *self {
            Dialog::Confirm(c) => after matches Dialog::Confirm(c2) && c.after_key(c2, key_event, modifiers),
            Dialog::Menu(d) => after == Dialog::Menu(d.step(key_event, modifiers).0),
            Dialog::Slider(d) => after matches Dialog::Slider(d2) && d.after_key(d2, key_event, modifiers),
        }
    }

    pub fn draw(&self, buffer: &mut DrawBuffer)
        requires
            old(buffer).wf(),
        ensures
            final(buffer).painted(old(buffer), self.paint_cmds()),
    {
        match self {
            Dialog::Confirm(d) => d.draw(buffer),
            Dialog::Menu(d) => d.draw(buffer),
            Dialog::Slider(d) => d.draw(buffer),
        }
    }

    /// Whether the dialog takes `key_event`: the slider dialog's text field takes a pressed
    /// character key only when it produces exactly one character.
    pub open spec fn key_ok(&self, key_event: KeyEvent) -> bool {
        *self is Slider ==> single_char_key(key_event)
    }

    pub fn accepts_key(&self, key_event: &KeyEvent) -> (r: bool)
        ensures
            r == self.key_ok(*key_event),
    {
        match self {
            Dialog::Slider(_) => is_single_char_key(key_event),
            _ => true,
        }
    }

    pub fn process_input(
        &mut self,
        key_event: &KeyEvent,
        modifiers: &Modifiers,
        events: &mut VecDeque<GlobalEvent>,
    ) -> (r: DialogResponse)
        requires
            old(self).key_ok(*key_event),
        ensures
            r == old(self).outcome(*key_event, *modifiers).0,
            final(events)@ == old(events)@ + old(self).outcome(*key_event, *modifiers).1,
            old(self).after_key(*final(self), *key_event, *modifiers),
            match *old(self) {
                Dialog::Confirm(d) => {
                    &&& *final(self) is Confirm
                    &&& r == d.outcome(*key_event, *modifiers).0
                    &&& final(events)@ == old(events)@ + d.outcome(*key_event, *modifiers).1
                },
                Dialog::Menu(d) => {
                    let (menu, sent, response) = d.step(*key_event, *modifiers);
                    &&& *final(self) == Dialog::Menu(menu)
                    &&& r == response
                    &&& final(events)@ == old(events)@ + sent
                },
                Dialog::Slider(d) => {
                    &&& *final(self) is Slider
                    &&& r == d.outcome(*key_event, *modifiers).0
                    &&& final(events)@ == old(events)@ + d.outcome(*key_event, *modifiers).1
                },
            },
    {
        match self {
            Dialog::Confirm(d) => d.process_input(key_event, modifiers, events),
            Dialog::Menu(d) => d.process_input(key_event, modifiers, events),
            Dialog::Slider(d) => d.process_input(key_event, modifiers, events),
        }
    }
}

/// The open dialogs, the last one on top; only that one gets input.
pub struct DialogManager {
    stack: Vec<Dialog>,
}

impl DialogManager {
    pub closed spec fn spec_stack(&self) -> Seq<Dialog> {
        self.stack@
    }

    pub fn new() -> (r: Self)
        ensures
            r.spec_stack() == Seq::<Dialog>::empty(),
    {
        // the capacity of the deepest nesting in use
        Self { stack: Vec::with_capacity(3) }
    }

    /// The dialog on top, which gets the input.
    pub fn active_dialog_mut(&mut self) -> (r: Option<&mut Dialog>)
        ensures
            r is None <==> old(self).spec_stack().len() == 0,
            r matches Some(d) ==> *d == old(self).spec_stack().last(),
            r matches Some(d) ==> final(self).spec_stack() == old(self).spec_stack().drop_last().push(*final(d)),
            r is None ==> final(self).spec_stack() == old(self).spec_stack(),
    {
        let len = self.stack.len();
        if len == 0 {
            None
        } else {
            Some(&mut self.stack[len - 1])
        }
    }

    /// Whether the dialog on top, if there is one, takes `key_event`.
    pub fn accepts_key(&self, key_event: &KeyEvent) -> (r: bool)
        ensures
            r == (self.spec_stack().len() > 0 ==> self.spec_stack().last().key_ok(*key_event)),
    {
        let len = self.stack.len();
        if len == 0 {
            true
        } else {
            self.stack[len - 1].accepts_key(key_event)
        }
    }

    pub fn is_active(&self) -> (r: bool)
        ensures
            r == (self.spec_stack().len() > 0),
    {
        self.stack.len() != 0
    }

    /// Puts `dialog` on top.
    pub fn open_dialog(&mut self, dialog: Dialog)
        ensures
            final(self).spec_stack() == old(self).spec_stack().push(dialog),
    {
        self.stack.push(dialog);
    }

    /// Closes the dialog on top, if there is one.
    pub fn close_dialog(&mut self)
        ensures
            final(self).spec_stack() == if old(self).spec_stack().len() == 0 {
                old(self).spec_stack()
            } else {
                old(self).spec_stack().drop_last()
            },
    {
        let _ = self.stack.pop();
    }

    pub fn close_all(&mut self)
        ensures
            final(self).spec_stack() == Seq::<Dialog>::empty(),
    {
        self.stack.clear();
    }

    /// What drawing all open dialogs, bottom to top, does.
    pub open spec fn paint_cmds(&self) -> Seq<Paint> {
        self.spec_stack().map_values(|d: Dialog| d.paint_cmds()).flatten()
    }

    /// Draws all open dialogs, bottom to top.
    pub fn draw(&self, buffer: &mut DrawBuffer)
        requires
            old(buffer).wf(),
        ensures
            final(buffer).painted(old(buffer), self.paint_cmds()),
    {
        let ghost b0 = *buffer;
        let ghost all = self.stack@.map_values(|d: Dialog| d.paint_cmds());
        proof {
            DrawBuffer::lemma_painted_nothing(buffer);
            assert(all.take(0).flatten() =~= Seq::<Paint>::empty());
        }
        let mut i: usize = 0;
        while i < self.stack.len()
            invariant
                i <= self.stack@.len(),
                all == self.stack@.map_values(|d: Dialog| d.paint_cmds()),
                buffer.painted(&b0, all.take(i as int).flatten()),
            decreases self.stack@.len() - i,
        {
            let ghost before = *buffer;
            self.stack[i].draw(buffer);
            proof {
                DrawBuffer::lemma_painted_then(&b0, &before, buffer, all.take(i as int).flatten(), all[i as int]);
                lemma_flatten_take_step(all, i as int);
            }
            i += 1;
        }
        proof {
            assert(all.take(i as int) =~= all);
        }
    }
}

/// Taking one more sequence before flattening appends that sequence.
pub proof fn lemma_flatten_take_step<A>(s: Seq<Seq<A>>, i: int)
    requires
        0 <= i < s.len(),
    ensures
        s.take(i + 1).flatten() == s.take(i).flatten() + s[i],
{
    assert(s.take(i + 1) =~= s.take(i).push(s[i]));
    s.take(i).lemma_flatten_push(s[i]);
}


/// Opening a dialog and closing the top one gives back the dialogs that were open, and the
/// opened dialog is the one that gets the input in between.
pub proof fn lemma_open_then_close(stack: Seq<Dialog>, dialog: Dialog)
    ensures
        stack.push(dialog).last() == dialog,
        stack.push(dialog).len() > 0,
        stack.push(dialog).drop_last() == stack,
{
    assert(stack.push(dialog).drop_last() =~= stack);
}

} // verus!
