//! The building blocks of pages and dialogs, and what they answer to input.

pub mod button;
pub mod text_in;
pub mod slider;
pub mod text_in_scroll;
pub mod toggle;
pub mod toggle_button;
use vstd::prelude::*;

use crate::input::{Key, KeyEvent, Modifiers, NamedKey};

verus! {

/// What every widget can ask of its owner. `SwitchFocus` also asks for a redraw.
#[derive(Debug, Clone, Copy, PartialEq, Eq, Structural)]
pub enum StandardResponse {
    SwitchFocus(usize),
    RequestRedraw,
    Nothing,
}

/// The answer of a widget to input: the standard part and what the widget produced.
#[derive(Debug)]
pub struct WidgetResponse<R> {
    pub standard: StandardResponse,
    pub extra: Option<R>,
}

impl<R> WidgetResponse<R> {
    /// Nothing to do.
    pub fn none() -> (r: Self)
        ensures
            r.standard == StandardResponse::Nothing,
            r.extra is None,
    {
        Self { standard: StandardResponse::Nothing, extra: None }
    }

    pub fn request_redraw() -> (r: Self)
        ensures
            r.standard == StandardResponse::RequestRedraw,
            r.extra is None,
    {
        Self { standard: StandardResponse::RequestRedraw, extra: None }
    }

    pub fn next_widget(value: usize) -> (r: Self)
        ensures
            r.standard == StandardResponse::SwitchFocus(value),
            r.extra is None,
    {
        Self { standard: StandardResponse::SwitchFocus(value), extra: None }
    }

    pub fn from_standard(value: StandardResponse) -> (r: Self)
        ensures
            r.standard == value,
            r.extra is None,
    {
        Self { standard: value, extra: None }
    }

    /// Focus on `value` if there is one, else nothing.
    pub fn from_focus(value: Option<usize>) -> (r: Self)
        ensures
            r.standard == focus_response(value),
            r.extra is None,
    {
        Self {
            standard: match value {
                Some(num) => StandardResponse::SwitchFocus(num),
                None => StandardResponse::Nothing,
            },
            extra: None,
        }
    }
}

/// `SwitchFocus` to the widget, if there is one.
pub open spec fn focus_response(value: Option<usize>) -> StandardResponse {
    match value {
        Some(num) => StandardResponse::SwitchFocus(num),
        None => StandardResponse::Nothing,
    }
}

/// Which widget gets the focus when the user leaves a widget in one of six ways.
#[derive(Debug, Clone, Copy, PartialEq, Eq, Structural)]
pub struct NextWidget {
    pub left: Option<usize>,
    pub right: Option<usize>,
    pub up: Option<usize>,
    pub down: Option<usize>,
    pub tab: Option<usize>,
    pub shift_tab: Option<usize>,
}

impl NextWidget {
    /// No neighbours at all.
    pub fn empty() -> (r: Self)
        ensures
            r.left is None && r.right is None && r.up is None,
            r.down is None && r.tab is None && r.shift_tab is None,
    {
        NextWidget { left: None, right: None, up: None, down: None, tab: None, shift_tab: None }
    }

    /// The neighbour that `key_event` with `modifiers` leads to: an arrow key without
    /// modifiers leads in its direction, tab forward, shift + tab backwards.
    pub open spec fn target(&self, key_event: KeyEvent, modifiers: Modifiers) -> Option<usize> {
        let key = key_event.logical_key;
        if !key_event.pressed {
            None
        } else if key.is_named(NamedKey::ArrowUp) && modifiers.spec_is_empty() {
            self.up
        } else if key.is_named(NamedKey::ArrowDown) && modifiers.spec_is_empty() {
            self.down
        } else if key.is_named(NamedKey::ArrowRight) && modifiers.spec_is_empty() {
            self.right
        } else if key.is_named(NamedKey::ArrowLeft) && modifiers.spec_is_empty() {
            self.left
        } else if key.is_named(NamedKey::Tab) {
            if modifiers.spec_only_shift() {
                self.shift_tab
            } else {
                self.tab
            }
        } else {
            None
        }
    }

    /// Called by widgets after they handled their own keys, to pick a response.
    pub fn process_key_event<R>(&self, key_event: &KeyEvent, modifiers: &Modifiers) -> (r: WidgetResponse<R>)
        ensures
            r.standard == focus_response(self.target(*key_event, *modifiers)),
            r.extra is None,
    {
        if !key_event.pressed {
            return WidgetResponse::none();
        }
        let key = &key_event.logical_key;
        if key.named(NamedKey::ArrowUp) && modifiers.is_empty() {
            WidgetResponse::from_focus(self.up)
        } else if key.named(NamedKey::ArrowDown) && modifiers.is_empty() {
            WidgetResponse::from_focus(self.down)
        } else if key.named(NamedKey::ArrowRight) && modifiers.is_empty() {
            WidgetResponse::from_focus(self.right)
        } else if key.named(NamedKey::ArrowLeft) && modifiers.is_empty() {
            WidgetResponse::from_focus(self.left)
        } else if key.named(NamedKey::Tab) {
            if modifiers.only_shift() {
                WidgetResponse::from_focus(self.shift_tab)
            } else {
                WidgetResponse::from_focus(self.tab)
            }
        } else {
            WidgetResponse::none()
        }
    }
}

} // verus!
