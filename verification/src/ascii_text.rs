//! Text that holds ASCII characters only, kept in an `ascii::AsciiString`.
use vstd::prelude::*;
use vstd::string::*;
use vstd::utf8::is_ascii_chars;

verus! {

#[verifier::external_type_specification]
#[verifier::external_body]
pub struct ExAsciiString(ascii::AsciiString);

/// The characters an `ascii::AsciiString` holds, in order.
pub uninterp spec fn ascii_chars(s: ascii::AsciiString) -> Seq<char>;

/// Whether `c` is an ASCII character, as `ascii::AsciiChar::from_ascii` decides it.
pub open spec fn is_ascii_char(c: char) -> bool {
    '\0' <= c <= '\u{7f}'
}

pub fn char_is_ascii(c: char) -> (r: bool)
    ensures
        r == is_ascii_char(c),
{
    c <= '\u{7f}'
}

/// `ascii::AsciiString::new`: an empty string.
#[verifier::external_body]
pub(crate) fn ascii_new() -> (r: ascii::AsciiString)
    ensures
        ascii_chars(r) == Seq::<char>::empty(),
{
    ascii::AsciiString::new()
}

/// `ascii::AsciiString::with_capacity`: an empty string.
#[verifier::external_body]
pub(crate) fn ascii_with_capacity(capacity: usize) -> (r: ascii::AsciiString)
    ensures
        ascii_chars(r) == Seq::<char>::empty(),
{
    ascii::AsciiString::with_capacity(capacity)
}

/// `ascii::AsciiString::from_ascii` on the bytes of `s`: succeeds exactly when every byte
/// is ASCII, and then holds the characters of `s`.
#[verifier::external_body]
pub(crate) fn ascii_from_str(s: &str) -> (r: Option<ascii::AsciiString>)
    ensures
        r is Some <==> is_ascii(s),
        r matches Some(a) ==> ascii_chars(a) == s@,
{
    ascii::AsciiString::from_ascii(s).ok()
}

/// `ascii::AsciiString::len`: the number of characters (one byte each).
#[verifier::external_body]
pub(crate) fn ascii_len(s: &ascii::AsciiString) -> (r: usize)
    ensures
        r == ascii_chars(*s).len(),
{
    s.len()
}

/// `ascii::AsciiString::as_str`: the same characters as a `&str`.
#[verifier::external_body]
pub(crate) fn ascii_as_str(s: &ascii::AsciiString) -> (r: &str)
    ensures
        r@ == ascii_chars(*s),
        is_ascii(r),
{
    s.as_str()
}

/// `ascii::AsciiString::insert` of the ASCII character `c` (made by
/// `ascii::AsciiChar::new`) at `idx`; the crate panics for `idx` past the end.
#[verifier::external_body]
pub(crate) fn ascii_insert(s: &mut ascii::AsciiString, idx: usize, c: char)
    requires
        idx <= ascii_chars(*old(s)).len(),
        is_ascii_char(c),
    ensures
        ascii_chars(*final(s)) == ascii_chars(*old(s)).insert(idx as int, c),
{
    s.insert(idx, ascii::AsciiChar::new(c))
}

/// `ascii::AsciiString::remove` at `idx`; the crate panics for `idx` past the last character.
#[verifier::external_body]
pub(crate) fn ascii_remove(s: &mut ascii::AsciiString, idx: usize)
    requires
        idx < ascii_chars(*old(s)).len(),
    ensures
        ascii_chars(*final(s)) == ascii_chars(*old(s)).remove(idx as int),
{
    let _ = s.remove(idx);
}

/// `ascii::AsciiString::truncate`: keeps the first `new_len` characters (all of them if
/// there are fewer; the crate's body calls `Vec::truncate`, which does not panic).
#[verifier::external_body]
pub(crate) fn ascii_truncate(s: &mut ascii::AsciiString, new_len: usize)
    ensures
        ascii_chars(*final(s)) == if new_len < ascii_chars(*old(s)).len() {
            ascii_chars(*old(s)).take(new_len as int)
        } else {
            ascii_chars(*old(s))
        },
{
    s.truncate(new_len)
}

/// `ascii::AsciiString::clear`: removes all characters.
#[verifier::external_body]
pub(crate) fn ascii_clear(s: &mut ascii::AsciiString)
    ensures
        ascii_chars(*final(s)) == Seq::<char>::empty(),
{
    s.clear()
}

} // verus!
