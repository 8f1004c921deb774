//! Keyboard input as the user interface sees it.
use vstd::prelude::*;
use vstd::string::*;

verus! {

/// The keys with a name that the user interface reacts to; all others are `Other`.
#[derive(Debug, Clone, Copy, PartialEq, Eq, Structural)]
pub enum NamedKey {
    ArrowUp,
    ArrowDown,
    ArrowLeft,
    ArrowRight,
    Tab,
    Space,
    Enter,
    Escape,
    Delete,
    Backspace,
    PageUp,
    PageDown,
    F1,
    F2,
    F3,
    F11,
    F12,
    Other,
}

/// The meaning of a key press, after the keyboard layout is applied.
#[derive(Debug, Clone)]
pub enum Key {
    Named(NamedKey),
    /// The text the key produces.
    Character(String),
    Unidentified,
}

impl Key {
    /// Whether the key is the named key `named`.
    pub open spec fn is_named(&self, named: NamedKey) -> bool {
        self matches Key::Named(n) && n == named
    }

    /// Whether the key produces exactly the one character `c`.
    pub open spec fn is_char(&self, c: char) -> bool {
        self matches Key::Character(s) && s@ == seq![c]
    }

    pub fn named(&self, named: NamedKey) -> (r: bool)
        ensures
            r == self.is_named(named),
    {
        match self {
            Key::Named(n) => *n == named,
            _ => false,
        }
    }

    pub fn char_is(&self, c: char) -> (r: bool)
        ensures
            r == self.is_char(c),
    {
        match self {
            Key::Character(s) => {
                let text = s.as_str();
                if text.unicode_len() == 1 {
                    let first = text.get_char(0);
                    assert(first == c ==> text@ =~= seq![c]);
                    first == c
                } else {
                    false
                }
            },
            _ => false,
        }
    }

    /// The first character the key produces, if it produces text.
    pub open spec fn first_char(&self) -> Option<char> {
        match self {
            Key::Character(s) => if s@.len() > 0 {
                Some(s@[0])
            } else {
                None
            },
            _ => None,
        }
    }

    pub fn get_first_char(&self) -> (r: Option<char>)
        ensures
            r == self.first_char(),
    {
        match self {
            Key::Character(s) => {
                let text = s.as_str();
                if text.unicode_len() > 0 {
                    Some(text.get_char(0))
                } else {
                    None
                }
            },
            _ => None,
        }
    }
}

/// A key press or release.
#[derive(Debug, Clone)]
pub struct KeyEvent {
    pub logical_key: Key,
    /// `true` for a press, `false` for a release.
    pub pressed: bool,
    /// Whether the press repeats because the key is held down.
    pub repeat: bool,
}

/// The modifier keys that are held down.
#[derive(Debug, Clone, Copy, PartialEq, Eq, Structural, Default)]
pub struct Modifiers {
    pub shift: bool,
    pub control: bool,
    pub alt: bool,
    pub super_key: bool,
}

impl Modifiers {
    pub open spec fn spec_is_empty(&self) -> bool {
        !self.shift && !self.control && !self.alt && !self.super_key
    }

    pub open spec fn spec_only_shift(&self) -> bool {
        self.shift && !self.control && !self.alt && !self.super_key
    }

    /// No modifier is held down.
    pub fn is_empty(&self) -> (r: bool)
        ensures
            r == self.spec_is_empty(),
    {
        !self.shift && !self.control && !self.alt && !self.super_key
    }

    /// Shift and nothing else is held down.
    pub fn only_shift(&self) -> (r: bool)
        ensures
            r == self.spec_only_shift(),
    {
        self.shift && !self.control && !self.alt && !self.super_key
    }
}

} // verus!
