//! The 8 x 8 bitmap font of the `font8x8` crate.
use vstd::prelude::*;

verus! {

/// The glyph that `font8x8::BASIC_FONTS` holds for `key`: eight rows, the least
/// significant bit of a row is its leftmost pixel.
pub uninterp spec fn basic_font_glyph(key: char) -> Seq<u8>;

/// Looks `key` up in `font8x8::BASIC_FONTS` (`UnicodeFonts::get`).
///
/// Trusted: the crate's table holds the 128 characters U+0000 to U+007F in order and
/// answers `None` for every other character; the glyph's bits are named, not stated.
#[verifier::external_body]
pub(crate) fn basic_glyph(key: char) -> (r: Option<[u8; 8]>)
    ensures
        r is Some <==> (key as u32) < 128,
        r matches Some(g) ==> g@ == basic_font_glyph(key),
{
    font8x8::UnicodeFonts::get(&font8x8::BASIC_FONTS, key)
}

} // verus!
