//! A one line text input of any length that scrolls to keep the cursor in view.
use vstd::prelude::*;
use vstd::string::*;
use vstd::utf8::is_ascii_chars;

use crate::ascii_text::{
    ascii_as_str, ascii_chars, ascii_clear, ascii_from_str, ascii_insert, ascii_len, ascii_new, ascii_remove,
    ascii_truncate, char_is_ascii, is_ascii_char,
};
use crate::coordinates::{CharPosition, WINDOW_WIDTH_CHARS};
use crate::draw_buffer::{DrawBuffer, Paint};
use crate::input::{Key, KeyEvent, Modifiers, NamedKey};
use crate::ui::widgets::text_in::{cursor_cmds, draw_cursor, single_char_key, NotAscii};
use crate::ui::widgets::{focus_response, NextWidget, StandardResponse, WidgetResponse};

verus! {

/// The cursor and scroll offset after a move to the right over a text of `len`
/// characters, and whether the cursor moved.
pub open spec fn scroll_right(len: int, cursor: int, scroll: int, width: int) -> (int, int, bool) {
    if cursor < len {
        let c = cursor + 1;
        (c, if c > scroll + width { scroll + 1 } else { scroll }, true)
    } else {
        (cursor, scroll, false)
    }
}

/// The cursor and scroll offset after a move to the left, and whether the cursor moved.
pub open spec fn scroll_left(cursor: int, scroll: int) -> (int, int, bool) {
    if cursor > 0 {
        let c = cursor - 1;
        (c, if c < scroll { scroll - 1 } else { scroll }, true)
    } else {
        (cursor, scroll, false)
    }
}

/// The state of a scrolling text input as far as key events change it.
pub struct ScrollState {
    pub text: Seq<char>,
    pub cursor: int,
    pub scroll: int,
}

/// Whether the cursor lies inside the text and the scroll offset keeps it in view: the shown
/// part starts at the scroll offset, at or before the cursor, and the cursor is at most
/// `width` cells into it.
pub open spec fn scroll_ok(s: ScrollState, width: int) -> bool {
    &&& 0 <= s.scroll <= s.cursor <= s.text.len()
    &&& s.cursor - s.scroll <= width
}

/// What a scrolling text input does with one key event.
pub struct ScrollInput {
    pub state: ScrollState,
    pub standard: StandardResponse,
    pub changed: bool,
}

/// Typing `c` into `s`: it goes in at the cursor, which then moves right.
pub open spec fn scroll_typed(s: ScrollState, width: int, c: char) -> ScrollState {
    let text = s.text.insert(s.cursor, c);
    let (cursor, scroll, _) = scroll_right(text.len() as int, s.cursor, s.scroll, width);
    ScrollState { text, cursor, scroll }
}

pub struct TextInScroll {
    pos: CharPosition,
    width: usize,
    text: ascii::AsciiString,
    next_widget: NextWidget,
    cursor_pos: usize,
    scroll_offset: usize,
}

impl TextInScroll {
    #[verifier::type_invariant]
    spec fn inv(self) -> bool {
        &&& self.scroll_offset <= self.cursor_pos <= ascii_chars(self.text).len()
        &&& self.cursor_pos - self.scroll_offset <= self.width
        &&& self.pos.spec_x() + self.width < WINDOW_WIDTH_CHARS
        &&& is_ascii_chars(ascii_chars(self.text))
    }

    pub closed spec fn spec_pos(&self) -> CharPosition {
        self.pos
    }

    pub closed spec fn spec_width(&self) -> int {
        self.width as int
    }

    pub closed spec fn spec_text(&self) -> Seq<char> {
        ascii_chars(self.text)
    }

    pub closed spec fn spec_next_widget(&self) -> NextWidget {
        self.next_widget
    }

    pub closed spec fn spec_cursor(&self) -> int {
        self.cursor_pos as int
    }

    pub closed spec fn spec_scroll(&self) -> int {
        self.scroll_offset as int
    }

    pub open spec fn state(&self) -> ScrollState {
        ScrollState { text: self.spec_text(), cursor: self.spec_cursor(), scroll: self.spec_scroll() }
    }

    /// What every scrolling text input satisfies: the cursor is inside the text and
    /// inside the shown part of it.
    pub open spec fn wf(&self) -> bool {
        &&& scroll_ok(self.state(), self.spec_width())
        &&& self.spec_pos().spec_x() + self.spec_width() < WINDOW_WIDTH_CHARS
        &&& is_ascii_chars(self.spec_text())
    }

    /// Whether the parts that `process_input` does not change are unchanged.
    pub open spec fn same_frame(&self, other: &Self) -> bool {
        &&& self.spec_pos() == other.spec_pos()
        &&& self.spec_width() == other.spec_width()
        &&& self.spec_next_widget() == other.spec_next_widget()
    }

    /// The caller guarantees that the field fits into the window and has no left or right
    /// neighbour.
    pub fn new(pos: CharPosition, width: usize, next_widget: NextWidget) -> (r: Self)
        requires
            pos.spec_x() + width < WINDOW_WIDTH_CHARS,
            next_widget.right is None,
            next_widget.left is None,
        ensures
            r.spec_pos() == pos,
            r.spec_width() == width,
            r.spec_text() == Seq::<char>::empty(),
            r.spec_cursor() == 0,
            r.spec_scroll() == 0,
            r.spec_next_widget() == next_widget,
    {
        TextInScroll { pos, width, text: ascii_new(), next_widget, cursor_pos: 0, scroll_offset: 0 }
    }

    pub fn get_str(&self) -> (r: &str)
        ensures
            r@ == self.spec_text(),
            is_ascii(r),
            self.wf(),
    {
        proof {
            use_type_invariant(self);
        }
        ascii_as_str(&self.text)
    }

    /// Sets the text to `new_str` cut to the width, keeps the cursor where it can stay,
    /// and scrolls back to the start; fails, changing nothing, if `new_str` is not all ASCII.
    pub fn set_string(&mut self, new_str: &str) -> (r: Result<(), NotAscii>)
        ensures
            r is Ok <==> is_ascii(new_str),
            r is Ok ==> final(self).spec_text() == (if new_str@.len() > old(self).spec_width() {
                new_str@.take(old(self).spec_width())
            } else {
                new_str@
            }),
            r is Ok ==> final(self).spec_cursor() == if old(self).spec_cursor() > final(self).spec_text().len() {
                final(self).spec_text().len() as int
            } else {
                old(self).spec_cursor()
            },
            r is Ok ==> final(self).spec_scroll() == 0,
            r is Err ==> final(self).state() == old(self).state(),
            final(self).same_frame(old(self)),
    {
        proof {
            use_type_invariant(&*self);
        }
        match ascii_from_str(new_str) {
            Some(text) => {
                let mut text = text;
                ascii_truncate(&mut text, self.width);
                let len = ascii_len(&text);
                proof {
                    assert(is_ascii_chars(ascii_chars(text))) by {
                        assert forall|i: int| 0 <= i < ascii_chars(text).len() implies '\0' <= #[trigger] ascii_chars(text)[i] <= '\u{7f}' by {
                            assert(ascii_chars(text)[i] == new_str@[i]);
                        }
                    }
                }
                let cursor = if self.cursor_pos > len {
                    len
                } else {
                    self.cursor_pos
                };
                // the text fits into the field, so this is always 0
                let scroll = len.saturating_sub(self.width);
                self.replace_state(text, cursor, scroll);
                Ok(())
            },
            None => Err(NotAscii),
        }
    }

    /// Takes the text out, leaving an empty one with cursor and scroll offset at the start.
    fn take_text(&mut self) -> (r: ascii::AsciiString)
        ensures
            ascii_chars(r) == old(self).spec_text(),
            final(self).spec_text() == Seq::<char>::empty(),
            final(self).spec_cursor() == 0,
            final(self).spec_scroll() == 0,
            final(self).same_frame(old(self)),
    {
        proof {
            use_type_invariant(&*self);
        }
        let mut taken = TextInScroll {
            pos: self.pos,
            width: self.width,
            text: ascii_new(),
            next_widget: self.next_widget,
            cursor_pos: 0,
            scroll_offset: 0,
        };
        std::mem::swap(self, &mut taken);
        taken.text
    }

    /// Puts `text` in with the given cursor and scroll offset.
    fn replace_state(&mut self, text: ascii::AsciiString, cursor: usize, scroll: usize)
        requires
            scroll <= cursor <= ascii_chars(text).len(),
            cursor - scroll <= old(self).spec_width(),
            is_ascii_chars(ascii_chars(text)),
        ensures
            final(self).spec_text() == ascii_chars(text),
            final(self).spec_cursor() == cursor,
            final(self).spec_scroll() == scroll,
            final(self).same_frame(old(self)),
    {
        proof {
            use_type_invariant(&*self);
        }
        *self = TextInScroll {
            pos: self.pos,
            width: self.width,
            text,
            next_widget: self.next_widget,
            cursor_pos: cursor,
            scroll_offset: scroll,
        };
    }

    /// Moves the cursor one to the left, scrolling if it leaves the shown part; returns
    /// whether it moved.
    fn move_cursor_left(&mut self) -> (r: bool)
        ensures
            (final(self).spec_cursor(), final(self).spec_scroll(), r) == scroll_left(
                old(self).spec_cursor(),
                old(self).spec_scroll(),
            ),
            final(self).spec_text() == old(self).spec_text(),
            final(self).same_frame(old(self)),
    {
        proof {
            use_type_invariant(&*self);
        }
        if self.cursor_pos > 0 {
            let cursor = self.cursor_pos - 1;
            let scroll = if cursor < self.scroll_offset {
                self.scroll_offset - 1
            } else {
                self.scroll_offset
            };
            let text = self.take_text();
            self.replace_state(text, cursor, scroll);
            true
        } else {
            false
        }
    }

    /// Moves the cursor one to the right, scrolling if it leaves the shown part; returns
    /// whether it moved.
    fn move_cursor_right(&mut self) -> (r: bool)
        ensures
            (final(self).spec_cursor(), final(self).spec_scroll(), r) == scroll_right(
                old(self).spec_text().len() as int,
                old(self).spec_cursor(),
                old(self).spec_scroll(),
                old(self).spec_width(),
            ),
            final(self).spec_text() == old(self).spec_text(),
            final(self).same_frame(old(self)),
    {
        proof {
            use_type_invariant(&*self);
        }
        if self.cursor_pos < ascii_len(&self.text) {
            let cursor = self.cursor_pos + 1;
            let scroll = if cursor - self.scroll_offset > self.width {
                self.scroll_offset + 1
            } else {
                self.scroll_offset
            };
            let text = self.take_text();
            self.replace_state(text, cursor, scroll);
            true
        } else {
            false
        }
    }

    /// Types `c` at the cursor.
    fn insert_char(&mut self, c: char)
        requires
            is_ascii_char(c),
        ensures
            final(self).state() == scroll_typed(old(self).state(), old(self).spec_width(), c),
            final(self).same_frame(old(self)),
    {
        proof {
            use_type_invariant(&*self);
        }
        let ghost old_text = ascii_chars(self.text);
        let cursor = self.cursor_pos;
        let scroll = self.scroll_offset;
        let mut text = self.take_text();
        ascii_insert(&mut text, cursor, c);
        proof {
            let t = old_text.insert(cursor as int, c);
            assert(is_ascii_chars(ascii_chars(text))) by {
                assert forall|i: int| 0 <= i < ascii_chars(text).len() implies '\0' <= #[trigger] ascii_chars(text)[i] <= '\u{7f}' by {
                    assert(ascii_chars(text)[i] == t[i]);
                    if i < cursor {
                        assert(t[i] == old_text[i]);
                    } else if i > cursor {
                        assert(t[i] == old_text[i - 1]);
                    }
                }
            }
        }
        self.replace_state(text, cursor, scroll);
        self.move_cursor_right();
    }

    /// Removes the character at the cursor, which must be inside the text.
    fn remove_at_cursor(&mut self)
        requires
            old(self).spec_cursor() < old(self).spec_text().len(),
        ensures
            final(self).spec_text() == old(self).spec_text().remove(old(self).spec_cursor()),
            final(self).spec_cursor() == old(self).spec_cursor(),
            final(self).spec_scroll() == old(self).spec_scroll(),
            final(self).same_frame(old(self)),
    {
        proof {
            use_type_invariant(&*self);
        }
        let ghost old_text = ascii_chars(self.text);
        let cursor = self.cursor_pos;
        let scroll = self.scroll_offset;
        let mut text = self.take_text();
        ascii_remove(&mut text, cursor);
        proof {
            assert(is_ascii_chars(ascii_chars(text))) by {
                assert forall|i: int| 0 <= i < ascii_chars(text).len() implies '\0' <= #[trigger] ascii_chars(text)[i] <= '\u{7f}' by {
                    if i < cursor {
                        assert(ascii_chars(text)[i] == old_text[i]);
                    } else {
                        assert(ascii_chars(text)[i] == old_text[i + 1]);
                    }
                }
            }
        }
        self.replace_state(text, cursor, scroll);
    }

    /// What `key_event` does to the field, unless it is handed on to the neighbours.
    pub open spec fn input(&self, key_event: KeyEvent, modifiers: Modifiers) -> ScrollInput {
        let key = key_event.logical_key;
        let s = self.state();
        let same = ScrollInput { state: s, standard: StandardResponse::Nothing, changed: false };
        if !key_event.pressed {
            same
        } else if key is Character {
            let c = key->Character_0@[0];
            ScrollInput {
                state: if is_ascii_char(c) { scroll_typed(s, self.spec_width(), c) } else { s },
                standard: StandardResponse::RequestRedraw,
                changed: true,
            }
        } else if key.is_named(NamedKey::Space) {
            ScrollInput {
                state: scroll_typed(s, self.spec_width(), ' '),
                standard: StandardResponse::RequestRedraw,
                changed: false,
            }
        } else if key.is_named(NamedKey::ArrowLeft) && modifiers.spec_is_empty() {
            let (cursor, scroll, moved) = scroll_left(s.cursor, s.scroll);
            ScrollInput {
                state: ScrollState { text: s.text, cursor, scroll },
                standard: if moved { StandardResponse::RequestRedraw } else { StandardResponse::Nothing },
                changed: false,
            }
        } else if key.is_named(NamedKey::ArrowRight) && modifiers.spec_is_empty() {
            let (cursor, scroll, moved) = scroll_right(s.text.len() as int, s.cursor, s.scroll, self.spec_width());
            ScrollInput {
                state: ScrollState { text: s.text, cursor, scroll },
                standard: if moved { StandardResponse::RequestRedraw } else { StandardResponse::Nothing },
                changed: false,
            }
        } else if key.is_named(NamedKey::Delete) {
            if s.cursor < s.text.len() {
                ScrollInput {
                    state: ScrollState { text: s.text.remove(s.cursor), ..s },
                    standard: StandardResponse::RequestRedraw,
                    changed: true,
                }
            } else {
                same
            }
        } else if key.is_named(NamedKey::Backspace) {
            if modifiers.super_key {
                ScrollInput {
                    state: ScrollState { text: Seq::empty(), cursor: 0, scroll: 0 },
                    standard: StandardResponse::RequestRedraw,
                    changed: true,
                }
            } else if modifiers.spec_is_empty() && s.text.len() > 0 {
                // at the start backspace deletes forward
                if s.cursor == 0 {
                    ScrollInput {
                        state: ScrollState { text: s.text.remove(0), ..s },
                        standard: StandardResponse::RequestRedraw,
                        changed: true,
                    }
                } else {
                    let (cursor, scroll, _) = scroll_left(s.cursor, s.scroll);
                    ScrollInput {
                        state: ScrollState { text: s.text.remove(s.cursor - 1), cursor, scroll },
                        standard: StandardResponse::RequestRedraw,
                        changed: true,
                    }
                }
            } else {
                same
            }
        } else {
            ScrollInput { standard: focus_response(self.spec_next_widget().target(key_event, modifiers)), ..same }
        }
    }

    /// Every key keeps the cursor inside the text and in view: the text shown from the
    /// scroll offset on holds the cursor within the width of the field.
    /// A pressed delete with the cursor on a character removes that character: the text
    /// before the cursor stays, the text after it moves one place left, and the cursor and
    /// the scroll offset stay.
    pub proof fn lemma_delete_at_cursor(&self, key_event: KeyEvent, modifiers: Modifiers)
        requires
            key_event.pressed,
            key_event.logical_key.is_named(NamedKey::Delete),
            0 <= self.spec_cursor() < self.spec_text().len(),
        ensures
            ({
                let r = self.input(key_event, modifiers).state;
                let c = self.spec_cursor();
                &&& r.text.len() == self.spec_text().len() - 1
                &&& r.text.take(c) == self.spec_text().take(c)
                &&& r.text.skip(c) == self.spec_text().skip(c + 1)
                &&& r.cursor == c
                &&& r.scroll == self.spec_scroll()
            }),
    {
        let r = self.input(key_event, modifiers).state;
        let c = self.spec_cursor();
        assert(r.text.take(c) =~= self.spec_text().take(c));
        assert(r.text.skip(c) =~= self.spec_text().skip(c + 1));
    }

    pub proof fn lemma_input_keeps_scroll(&self, key_event: KeyEvent, modifiers: Modifiers)
        requires
            scroll_ok(self.state(), self.spec_width()),
        ensures
            scroll_ok(self.input(key_event, modifiers).state, self.spec_width()),
    {
    }

    /// Handles a key event: typing, moving the cursor, deleting, or moving the focus. The
    /// response carries `Some(())` when the owner is to be told about the text.
    pub fn process_input(&mut self, modifiers: &Modifiers, key_event: &KeyEvent) -> (r: WidgetResponse<()>)
        requires
            single_char_key(*key_event),
        ensures
            final(self).state() == old(self).input(*key_event, *modifiers).state,
            r.standard == old(self).input(*key_event, *modifiers).standard,
            r.extra is Some <==> old(self).input(*key_event, *modifiers).changed,
            final(self).same_frame(old(self)),
    {
        proof {
            use_type_invariant(&*self);
        }
        if !key_event.pressed {
            return WidgetResponse::none();
        }
        let key = &key_event.logical_key;
        if let Key::Character(s) = key {
            let first = s.as_str().get_char(0);
            if char_is_ascii(first) {
                self.insert_char(first);
            }
            return WidgetResponse { standard: StandardResponse::RequestRedraw, extra: Some(()) };
        } else if key.named(NamedKey::Space) {
            self.insert_char(' ');
            return WidgetResponse::request_redraw();
        } else if key.named(NamedKey::ArrowLeft) && modifiers.is_empty() {
            if self.move_cursor_left() {
                return WidgetResponse::request_redraw();
            }
        } else if key.named(NamedKey::ArrowRight) && modifiers.is_empty() {
            if self.move_cursor_right() {
                return WidgetResponse::request_redraw();
            }
        } else if key.named(NamedKey::Delete) {
            // nothing to delete outside of the text
            if self.cursor_pos < ascii_len(&self.text) {
                self.remove_at_cursor();
                return WidgetResponse { standard: StandardResponse::RequestRedraw, extra: Some(()) };
            }
        } else if key.named(NamedKey::Backspace) {
            if modifiers.super_key {
                // super + backspace clears the text
                let mut text = self.take_text();
                ascii_clear(&mut text);
                self.replace_state(text, 0, 0);
                return WidgetResponse { standard: StandardResponse::RequestRedraw, extra: Some(()) };
            } else if modifiers.is_empty() && ascii_len(&self.text) != 0 {
                if self.cursor_pos == 0 {
                    self.remove_at_cursor();
                } else {
                    // moving first keeps the cursor inside the text
                    self.move_cursor_left();
                    self.remove_at_cursor();
                }
                return WidgetResponse { standard: StandardResponse::RequestRedraw, extra: Some(()) };
            }
        } else {
            return self.next_widget.process_key_event(key_event, modifiers);
        }
        WidgetResponse::none()
    }

    /// What drawing the field does: the shown part of the text in its cells, and when
    /// selected the cursor.
    pub open spec fn paint_cmds(&self, selected: bool) -> Seq<Paint> {
        let x = self.spec_pos().spec_x();
        let y = self.spec_pos().spec_y();
        let text = self.spec_text();
        let cursor = self.spec_cursor();
        seq![Paint::TextFit { text: text.skip(self.spec_scroll()), x, y, width: self.spec_width(), fg: 2, bg: 0 }]
            + if selected {
            cursor_cmds(text, x + cursor - self.spec_scroll(), y, cursor)
        } else {
            Seq::empty()
        }
    }

    pub fn draw(&self, buffer: &mut DrawBuffer, selected: bool)
        requires
            old(buffer).wf(),
        ensures
            final(buffer).painted(old(buffer), self.paint_cmds(selected)),
    {
        proof {
            use_type_invariant(self);
        }
        let ghost b0 = *buffer;
        let text = ascii_as_str(&self.text);
        let shown = text.substring_ascii(self.scroll_offset, text.unicode_len());
        proof {
            assert(shown@ =~= text@.skip(self.scroll_offset as int));
        }
        buffer.draw_string_length(shown, self.pos, self.width, 2, 0);
        let ghost b1 = *buffer;
        // draw the cursor by overdrawing a letter
        if selected {
            let _ = self.pos.x();
            let cell = self.pos + CharPosition::new(self.cursor_pos - self.scroll_offset, 0);
            draw_cursor(buffer, text, cell, self.cursor_pos);
            proof {
                let cmds = self.paint_cmds(selected);
                assert(cmds.skip(1) =~= cursor_cmds(text@, cell.spec_x(), cell.spec_y(), self.cursor_pos as int));
                assert(cmds.take(1) =~= seq![cmds[0]]);
                DrawBuffer::lemma_painted_then(&b0, &b1, buffer, cmds.take(1), cmds.skip(1));
                assert(cmds.take(1) + cmds.skip(1) =~= cmds);
            }
        } else {
            proof {
                assert(self.paint_cmds(selected) =~= seq![self.paint_cmds(selected)[0]]);
            }
        }
    }
}

} // verus!
