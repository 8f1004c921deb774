//! A one line text input of fixed width; it does not scroll.
use vstd::prelude::*;
use vstd::string::*;
use vstd::utf8::is_ascii_chars;

use crate::ascii_text::{
    ascii_as_str, ascii_chars, ascii_clear, ascii_from_str, ascii_insert, ascii_len, ascii_new, ascii_remove,
    ascii_truncate, ascii_with_capacity, char_is_ascii, is_ascii_char,
};
use crate::coordinates::{CharPosition, CharRect, WINDOW_WIDTH_CHARS};
use crate::draw_buffer::{all_within_rows, DrawBuffer, Paint};
use crate::font::{basic_font_glyph, basic_glyph};
use crate::input::{Key, KeyEvent, Modifiers, NamedKey};
use crate::ui::widgets::{focus_response, NextWidget, StandardResponse, WidgetResponse};

verus! {

/// The error of `set_string`: the text holds a character that is not ASCII.
#[derive(Debug, Clone, Copy, PartialEq, Eq, Structural)]
pub struct NotAscii;

/// Text and cursor after `c` is typed at `cursor` into `text` of at most `width`
/// characters: the cursor moves on unless it stands at the end of the field, the
/// character goes in before the new cursor, and what no longer fits is cut off.
pub open spec fn typed(text: Seq<char>, cursor: int, width: int, c: char) -> (Seq<char>, int) {
    let new_cursor = if cursor < width { cursor + 1 } else { cursor };
    let inserted = text.insert(new_cursor - 1, c);
    (if inserted.len() > width { inserted.take(width) } else { inserted }, new_cursor)
}

/// A key event as text inputs take them: a pressed character key produces exactly one
/// character.
pub open spec fn single_char_key(key_event: KeyEvent) -> bool {
    key_event.pressed ==> (key_event.logical_key matches Key::Character(s) ==> s@.len() == 1)
}

/// Whether text inputs take `key_event`: a pressed character key must produce exactly one
/// character.
pub fn is_single_char_key(key_event: &KeyEvent) -> (r: bool)
    ensures
        r == single_char_key(*key_event),
{
    if !key_event.pressed {
        return true;
    }
    match &key_event.logical_key {
        Key::Character(s) => s.as_str().unicode_len() == 1,
        _ => true,
    }
}

/// What drawing a text cursor at cell (`x`, `y`) over position `cursor` of `text` does: the
/// character there inverted, or past the end a block in colour 3.
pub open spec fn cursor_cmds(text: Seq<char>, x: int, y: int, cursor: int) -> Seq<Paint> {
    if cursor < text.len() {
        seq![Paint::Glyph { glyph: basic_font_glyph(text[cursor]), x, y, fg: 0, bg: 3 }]
    } else {
        seq![Paint::Rect { color: 3, top: y, bot: y, left: x, right: x }]
    }
}

/// Draws a text cursor at `cell` over position `cursor` of `text`.
pub fn draw_cursor(buffer: &mut DrawBuffer, text: &str, cell: CharPosition, cursor: usize)
    requires
        old(buffer).wf(),
        is_ascii(text),
        cursor <= text@.len(),
    ensures
        final(buffer).painted(old(buffer), cursor_cmds(text@, cell.spec_x(), cell.spec_y(), cursor as int)),
{
    if cursor < text.unicode_len() {
        let c = text.get_char(cursor);
        let glyph = match basic_glyph(c) {
            Some(g) => g,
            None => {
                proof {
                    assert(false);
                }
                [0u8; 8]
            },
        };
        buffer.draw_char(glyph, cell, 0, 3);
    } else {
        buffer.draw_rect(3, CharRect::from(cell));
    }
}

pub struct TextIn {
    pos: CharPosition,
    width: usize,
    text: ascii::AsciiString,
    next_widget: NextWidget,
    cursor_pos: usize,
}

/// What a text input does with one key event: its new text and cursor, its response, and
/// whether its text was set anew (where the owner is told).
pub struct TextInput {
    pub text: Seq<char>,
    pub cursor: int,
    pub standard: StandardResponse,
    pub changed: bool,
}

impl TextIn {
    #[verifier::type_invariant]
    spec fn inv(self) -> bool {
        &&& self.cursor_pos <= ascii_chars(self.text).len() <= self.width
        &&& self.pos.spec_x() + self.width < WINDOW_WIDTH_CHARS
        &&& is_ascii_chars(ascii_chars(self.text))
    }

    pub closed spec fn spec_pos(&self) -> CharPosition {
        self.pos
    }

    pub closed spec fn spec_width(&self) -> int {
        self.width as int
    }

    pub closed spec fn spec_text(&self) -> Seq<char> {
        ascii_chars(self.text)
    }

    pub closed spec fn spec_next_widget(&self) -> NextWidget {
        self.next_widget
    }

    pub closed spec fn spec_cursor(&self) -> int {
        self.cursor_pos as int
    }

    /// What every text input satisfies.
    pub open spec fn wf(&self) -> bool {
        &&& 0 <= self.spec_cursor() <= self.spec_text().len() <= self.spec_width()
        &&& self.spec_pos().spec_x() + self.spec_width() < WINDOW_WIDTH_CHARS
        &&& is_ascii_chars(self.spec_text())
    }

    /// The caller guarantees that the field fits into the window and has no left or right
    /// neighbour.
    pub fn new(pos: CharPosition, width: usize, next_widget: NextWidget) -> (r: Self)
        requires
            pos.spec_x() + width < WINDOW_WIDTH_CHARS,
            next_widget.right is None,
            next_widget.left is None,
        ensures
            r.spec_pos() == pos,
            r.spec_width() == width,
            r.spec_text() == Seq::<char>::empty(),
            r.spec_cursor() == 0,
            r.spec_next_widget() == next_widget,
    {
        // allows to never allocate or deallocate
        TextIn { pos, width, text: ascii_with_capacity(width), next_widget, cursor_pos: 0 }
    }

    pub fn get_str(&self) -> (r: &str)
        ensures
            r@ == self.spec_text(),
            is_ascii(r),
            self.wf(),
    {
        proof {
            use_type_invariant(self);
        }
        ascii_as_str(&self.text)
    }

    /// What drawing the field does: the text in its cells, and when selected the cursor,
    /// drawn over the character under it or as a block behind the text.
    pub open spec fn paint_cmds(&self, selected: bool) -> Seq<Paint> {
        let x = self.spec_pos().spec_x();
        let y = self.spec_pos().spec_y();
        let text = self.spec_text();
        let cursor = self.spec_cursor();
        seq![Paint::TextFit { text, x, y, width: self.spec_width(), fg: 2, bg: 0 }] + if selected {
            cursor_cmds(text, x + cursor, y, cursor)
        } else {
            Seq::empty()
        }
    }

    pub fn draw(&self, buffer: &mut DrawBuffer, selected: bool)
        requires
            old(buffer).wf(),
        ensures
            final(buffer).painted(old(buffer), self.paint_cmds(selected)),
    {
        proof {
            use_type_invariant(self);
        }
        let ghost b0 = *buffer;
        let text = ascii_as_str(&self.text);
        buffer.draw_string_length(text, self.pos, self.width, 2, 0);
        let ghost b1 = *buffer;
        // draw the cursor by overdrawing a letter
        if selected {
            let _ = self.pos.x();
            let cell = self.pos + CharPosition::new(self.cursor_pos, 0);
            draw_cursor(buffer, text, cell, self.cursor_pos);
            proof {
                let cmds = self.paint_cmds(selected);
                assert(cmds.skip(1) =~= cursor_cmds(text@, cell.spec_x(), cell.spec_y(), self.cursor_pos as int));
                assert(cmds.take(1) =~= seq![cmds[0]]);
                DrawBuffer::lemma_painted_then(&b0, &b1, buffer, self.paint_cmds(selected).take(1), self.paint_cmds(selected).skip(1));
                assert(self.paint_cmds(selected).take(1) + self.paint_cmds(selected).skip(1) =~= self.paint_cmds(selected));
            }
        } else {
            proof {
                assert(self.paint_cmds(selected) =~= seq![self.paint_cmds(selected)[0]]);
            }
        }
    }

    /// Sets the text to `new_str`, cut to the width, with the cursor at its end; fails,
    /// changing nothing, if `new_str` is not all ASCII.
    pub fn set_string(&mut self, new_str: String) -> (r: Result<(), NotAscii>)
        ensures
            r is Ok <==> is_ascii_chars(new_str@),
            r is Ok ==> final(self).spec_text() == (if new_str@.len() > old(self).spec_width() {
                new_str@.take(old(self).spec_width())
            } else {
                new_str@
            }),
            r is Ok ==> final(self).spec_cursor() == final(self).spec_text().len(),
            r is Err ==> final(self).spec_text() == old(self).spec_text(),
            r is Err ==> final(self).spec_cursor() == old(self).spec_cursor(),
            final(self).spec_pos() == old(self).spec_pos(),
            final(self).spec_width() == old(self).spec_width(),
            final(self).spec_next_widget() == old(self).spec_next_widget(),
    {
        proof {
            use_type_invariant(&*self);
        }
        match ascii_from_str(new_str.as_str()) {
            Some(text) => {
                let mut text = text;
                ascii_truncate(&mut text, self.width);
                let len = ascii_len(&text);
                proof {
                    assert(is_ascii_chars(ascii_chars(text))) by {
                        assert forall|i: int| 0 <= i < ascii_chars(text).len() implies '\0' <= #[trigger] ascii_chars(text)[i] <= '\u{7f}' by {
                            assert(ascii_chars(text)[i] == new_str@[i]);
                        }
                    }
                }
                self.cursor_pos = 0;
                self.text = text;
                self.cursor_pos = len;
                Ok(())
            },
            None => Err(NotAscii),
        }
    }

    /// Types `c` at the cursor.
    pub(crate) fn insert_char(&mut self, c: char)
        requires
            is_ascii_char(c),
            old(self).spec_width() >= 1,
        ensures
            (final(self).spec_text(), final(self).spec_cursor()) == typed(
                old(self).spec_text(),
                old(self).spec_cursor(),
                old(self).spec_width(),
                c,
            ),
            final(self).spec_pos() == old(self).spec_pos(),
            final(self).spec_width() == old(self).spec_width(),
            final(self).spec_next_widget() == old(self).spec_next_widget(),
    {
        proof {
            use_type_invariant(&*self);
        }
        let ghost old_text = ascii_chars(self.text);
        let mut cursor = self.cursor_pos;
        if cursor < self.width {
            cursor += 1;
        }
        self.cursor_pos = 0;
        let mut text = ascii_new();
        std::mem::swap(&mut text, &mut self.text);
        ascii_insert(&mut text, cursor - 1, c);
        ascii_truncate(&mut text, self.width);
        proof {
            let t = old_text.insert(cursor - 1, c);
            assert(is_ascii_chars(ascii_chars(text))) by {
                assert forall|i: int| 0 <= i < ascii_chars(text).len() implies '\0' <= #[trigger] ascii_chars(text)[i] <= '\u{7f}' by {
                    assert(ascii_chars(text)[i] == t[i]);
                    if i < cursor - 1 {
                        assert(t[i] == old_text[i]);
                    } else if i > cursor - 1 {
                        assert(t[i] == old_text[i - 1]);
                    }
                }
            }
        }
        self.text = text;
        self.cursor_pos = cursor;
    }

    /// What `key_event` does to the field, unless it is handed on to the neighbours.
    pub open spec fn input(&self, key_event: KeyEvent, modifiers: Modifiers) -> TextInput {
        let key = key_event.logical_key;
        let text = self.spec_text();
        let cursor = self.spec_cursor();
        let same = TextInput { text, cursor, standard: StandardResponse::Nothing, changed: false };
        if !key_event.pressed {
            same
        } else if key is Character {
            if is_ascii_char(key->Character_0@[0]) {
                let (t, c) = typed(text, cursor, self.spec_width(), key->Character_0@[0]);
                TextInput { text: t, cursor: c, standard: StandardResponse::RequestRedraw, changed: true }
            } else {
                TextInput { standard: StandardResponse::RequestRedraw, ..same }
            }
        } else if key.is_named(NamedKey::Space) {
            let (t, c) = typed(text, cursor, self.spec_width(), ' ');
            TextInput { text: t, cursor: c, standard: StandardResponse::RequestRedraw, changed: true }
        } else if key.is_named(NamedKey::ArrowLeft) && modifiers.spec_is_empty() {
            if cursor > 0 {
                TextInput { cursor: cursor - 1, standard: StandardResponse::RequestRedraw, ..same }
            } else {
                same
            }
        } else if key.is_named(NamedKey::ArrowRight) && modifiers.spec_is_empty() {
            if text.len() > cursor {
                TextInput { cursor: cursor + 1, standard: StandardResponse::RequestRedraw, ..same }
            } else {
                same
            }
        } else if key.is_named(NamedKey::Delete) {
            if cursor < text.len() {
                TextInput { text: text.remove(cursor), standard: StandardResponse::RequestRedraw, changed: true, ..same }
            } else {
                same
            }
        } else if key.is_named(NamedKey::Backspace) {
            if modifiers.super_key {
                TextInput { text: Seq::empty(), cursor: 0, standard: StandardResponse::RequestRedraw, changed: true }
            } else if modifiers.spec_is_empty() && text.len() > 0 {
                // at the start backspace deletes forward
                if cursor == 0 {
                    TextInput { text: text.remove(0), standard: StandardResponse::RequestRedraw, changed: true, ..same }
                } else {
                    TextInput { text: text.remove(cursor - 1), cursor: cursor - 1, standard: StandardResponse::RequestRedraw, changed: true }
                }
            } else {
                same
            }
        } else {
            TextInput { standard: focus_response(self.spec_next_widget().target(key_event, modifiers)), ..same }
        }
    }

    /// Handles a key event: typing, moving the cursor, deleting, or moving the focus. The
    /// response carries `Some(())` when the text was set anew.
    pub fn process_input(&mut self, modifiers: &Modifiers, key_event: &KeyEvent) -> (r: WidgetResponse<()>)
        requires
            old(self).spec_width() >= 1,
            single_char_key(*key_event),
        ensures
            final(self).spec_text() == old(self).input(*key_event, *modifiers).text,
            final(self).spec_cursor() == old(self).input(*key_event, *modifiers).cursor,
            r.standard == old(self).input(*key_event, *modifiers).standard,
            r.extra is Some <==> old(self).input(*key_event, *modifiers).changed,
            final(self).spec_pos() == old(self).spec_pos(),
            final(self).spec_width() == old(self).spec_width(),
            final(self).spec_next_widget() == old(self).spec_next_widget(),
    {
        proof {
            use_type_invariant(&*self);
        }
        if !key_event.pressed {
            return WidgetResponse::none();
        }
        let key = &key_event.logical_key;
        if let Key::Character(s) = key {
            let first = s.as_str().get_char(0);
            if char_is_ascii(first) {
                self.insert_char(first);
                return WidgetResponse { standard: StandardResponse::RequestRedraw, extra: Some(()) };
            }
            return WidgetResponse::request_redraw();
        } else if key.named(NamedKey::Space) {
            self.insert_char(' ');
            return WidgetResponse { standard: StandardResponse::RequestRedraw, extra: Some(()) };
        } else if key.named(NamedKey::ArrowLeft) && modifiers.is_empty() {
            // moving left from the start needs no redraw
            if self.cursor_pos > 0 {
                self.cursor_pos -= 1;
                return WidgetResponse::request_redraw();
            }
        } else if key.named(NamedKey::ArrowRight) && modifiers.is_empty() {
            // the cursor does not leave the text
            if ascii_len(&self.text) > self.cursor_pos {
                self.cursor_pos += 1;
                return WidgetResponse::request_redraw();
            }
        } else if key.named(NamedKey::Delete) {
            if self.cursor_pos < ascii_len(&self.text) {
                self.remove_at(self.cursor_pos);
                return WidgetResponse { standard: StandardResponse::RequestRedraw, extra: Some(()) };
            }
        } else if key.named(NamedKey::Backspace) {
            if modifiers.super_key {
                // super + backspace clears the text
                self.cursor_pos = 0;
                let mut text = ascii_new();
                std::mem::swap(&mut text, &mut self.text);
                ascii_clear(&mut text);
                self.text = text;
                return WidgetResponse { standard: StandardResponse::RequestRedraw, extra: Some(()) };
            } else if modifiers.is_empty() && ascii_len(&self.text) != 0 {
                if self.cursor_pos == 0 {
                    self.remove_at(0);
                } else {
                    let at = self.cursor_pos - 1;
                    self.cursor_pos = at;
                    self.remove_at(at);
                }
                return WidgetResponse { standard: StandardResponse::RequestRedraw, extra: Some(()) };
            }
        } else {
            return self.next_widget.process_key_event(key_event, modifiers);
        }
        WidgetResponse::none()
    }

    /// Removes the character at `idx`; the cursor stays.
    fn remove_at(&mut self, idx: usize)
        requires
            idx < old(self).spec_text().len(),
            old(self).spec_cursor() < old(self).spec_text().len(),
        ensures
            final(self).spec_text() == old(self).spec_text().remove(idx as int),
            final(self).spec_cursor() == old(self).spec_cursor(),
            final(self).spec_pos() == old(self).spec_pos(),
            final(self).spec_width() == old(self).spec_width(),
            final(self).spec_next_widget() == old(self).spec_next_widget(),
    {
        proof {
            use_type_invariant(&*self);
        }
        let ghost old_text = ascii_chars(self.text);
        let cursor = self.cursor_pos;
        self.cursor_pos = 0;
        let mut text = ascii_new();
        std::mem::swap(&mut text, &mut self.text);
        ascii_remove(&mut text, idx);
        proof {
            assert(is_ascii_chars(ascii_chars(text))) by {
                assert forall|i: int| 0 <= i < ascii_chars(text).len() implies '\0' <= #[trigger] ascii_chars(text)[i] <= '\u{7f}' by {
                    if i < idx {
                        assert(ascii_chars(text)[i] == old_text[i]);
                    } else {
                        assert(ascii_chars(text)[i] == old_text[i + 1]);
                    }
                }
            }
        }
        self.text = text;
        self.cursor_pos = cursor;
    }
}


/// Typing an ASCII character into a text input with room for it, then backspace without
/// modifiers, gives back the text and the cursor: `after` holds what `before` became after
/// the character.
pub proof fn lemma_type_then_backspace(
    before: TextIn,
    after: TextIn,
    typed_key: KeyEvent,
    backspace: KeyEvent,
    modifiers: Modifiers,
    empty: Modifiers,
)
    requires
        before.spec_cursor() <= before.spec_text().len() < before.spec_width(),
        typed_key.pressed,
        typed_key.logical_key matches Key::Character(s) && s@.len() == 1 && is_ascii_char(s@[0]),
        backspace.pressed,
        backspace.logical_key.is_named(NamedKey::Backspace),
        empty.spec_is_empty(),
        after.spec_width() == before.spec_width(),
        after.spec_text() == before.input(typed_key, modifiers).text,
        after.spec_cursor() == before.input(typed_key, modifiers).cursor,
    ensures
        after.input(backspace, empty).text == before.spec_text(),
        after.input(backspace, empty).cursor == before.spec_cursor(),
{
    let c = typed_key.logical_key->Character_0@[0];
    let text = before.spec_text();
    let cursor = before.spec_cursor();
    assert(after.spec_text() == text.insert(cursor, c));
    assert(after.spec_text().remove(cursor) =~= text);
}


/// Typing an ASCII character into a field with room left puts it under the cursor: the
/// text before the cursor stays, the character follows, then the rest of the old text, and
/// the cursor moves past the new character.
pub proof fn lemma_typed_at_cursor(t: TextIn, key_event: KeyEvent, modifiers: Modifiers, c: char)
    requires
        key_event.pressed,
        key_event.logical_key.is_char(c),
        is_ascii_char(c),
        0 <= t.spec_cursor() <= t.spec_text().len() < t.spec_width(),
    ensures
        ({
            let r = t.input(key_event, modifiers);
            let k = t.spec_cursor();
            &&& r.text.len() == t.spec_text().len() + 1
            &&& r.text.take(k) == t.spec_text().take(k)
            &&& r.text[k] == c
            &&& r.text.skip(k + 1) == t.spec_text().skip(k)
            &&& r.cursor == k + 1
            &&& r.changed
        }),
{
    let r = t.input(key_event, modifiers);
    let k = t.spec_cursor();
    assert(key_event.logical_key->Character_0@[0] == c);
    assert(r.text.take(k) =~= t.spec_text().take(k));
    assert(r.text.skip(k + 1) =~= t.spec_text().skip(k));
}

/// A pressed delete with the cursor on a character removes that character: the text
/// before the cursor stays, the text after it moves one place left, and the cursor stays.
pub proof fn lemma_delete_at_cursor(t: TextIn, key_event: KeyEvent, modifiers: Modifiers)
    requires
        key_event.pressed,
        key_event.logical_key.is_named(NamedKey::Delete),
        0 <= t.spec_cursor() < t.spec_text().len(),
    ensures
        ({
            let r = t.input(key_event, modifiers);
            let c = t.spec_cursor();
            &&& r.text.len() == t.spec_text().len() - 1
            &&& r.text.take(c) == t.spec_text().take(c)
            &&& r.text.skip(c) == t.spec_text().skip(c + 1)
            &&& r.cursor == c
            &&& r.changed
        }),
{
    let r = t.input(key_event, modifiers);
    let c = t.spec_cursor();
    assert(r.text.take(c) =~= t.spec_text().take(c));
    assert(r.text.skip(c) =~= t.spec_text().skip(c + 1));
}

/// A text input draws only into its own character row.
pub proof fn lemma_paint_in_row(text: TextIn, selected: bool)
    ensures
        all_within_rows(text.paint_cmds(selected), text.spec_pos().spec_y() as int, text.spec_pos().spec_y() as int),
{
}

} // verus!
