//! The frame buffer that everything on screen is drawn into.
use vstd::prelude::*;
use vstd::string::*;

use crate::coordinates::{CharPosition, CharRect, PixelRect, FONT_SIZE, WINDOW_HEIGHT, WINDOW_WIDTH};
use crate::font::{basic_font_glyph, basic_glyph};
use crate::palettes::{camouflage_colors, rgb10a2_value, Palette, RGB10A2, PALETTE_SIZE};

verus! {

/// Number of pixels of the window.
pub const FRAMEBUFFER_LEN: usize = 256_000;

/// Whether pixel column `x` and row `y` lie inside the window.
pub open spec fn on_screen(x: int, y: int) -> bool {
    0 <= x < WINDOW_WIDTH && 0 <= y < WINDOW_HEIGHT
}

/// Whether bit `bit` (0 = least significant) of `line` is set.
pub open spec fn bit_set(line: u8, bit: int) -> bool {
    (line >> (bit as u8)) & 1u8 == 1u8
}

/// The colour that drawing the glyph `glyph` with colours `fg` and `bg` at the cell whose
/// top left pixel is (`px`, `py`) gives to pixel (`x`, `y`) of that cell.
pub open spec fn glyph_pixel(glyph: Seq<u8>, px: int, py: int, x: int, y: int, fg: u32, bg: u32) -> u32 {
    if bit_set(glyph[y - py], x - px) {
        fg
    } else {
        bg
    }
}

/// Whether pixel (`x`, `y`) lies in the 8 x 8 cell whose top left pixel is (`px`, `py`).
pub open spec fn in_cell(px: int, py: int, x: int, y: int) -> bool {
    px <= x < px + 8 && py <= y < py + 8
}

/// The colour that writing `text` from character cell (`cx`, `cy`) on, with colours `fg`
/// and `bg`, gives to pixel (`x`, `y`), or `before` where the text does not reach.
pub open spec fn text_pixel(text: Seq<char>, cx: int, cy: int, x: int, y: int, fg: u32, bg: u32, before: u32) -> u32 {
    if y / 8 == cy && cx <= x / 8 < cx + text.len() {
        glyph_pixel(basic_font_glyph(text[x / 8 - cx]), (x / 8) * 8, cy * 8, x, y, fg, bg)
    } else {
        before
    }
}

/// The colour that writing `text` into the `width + 1` cells from (`cx`, `cy`) on gives to
/// pixel (`x`, `y`): the text cut to the cells, the cells it leaves free filled with `bg`.
pub open spec fn padded_text_pixel(
    text: Seq<char>,
    width: int,
    cx: int,
    cy: int,
    x: int,
    y: int,
    fg: u32,
    bg: u32,
    before: u32,
) -> u32 {
    if y / 8 == cy && cx <= x / 8 <= cx + width {
        if x / 8 - cx < text.len() {
            glyph_pixel(basic_font_glyph(text[x / 8 - cx]), (x / 8) * 8, cy * 8, x, y, fg, bg)
        } else {
            bg
        }
    } else {
        before
    }
}

/// The colour of pixel row `j` after the row bands of a border of thickness `th` are drawn
/// into the pixel rows `t..=b`: row `t + k` in `tl` and row `b - k` in `br` for each `k`
/// below `th`, one after the other, so that where the bands meet the later write stays.
pub open spec fn border_row_color(t: int, b: int, th: int, j: int, tl: u32, br: u32, before: u32) -> u32 {
    let in_top = t <= j < t + th;
    let in_bot = b - th < j <= b;
    if in_top && in_bot {
        if b - j >= j - t {
            br
        } else {
            tl
        }
    } else if in_bot {
        br
    } else if in_top {
        tl
    } else {
        before
    }
}

/// The colour of pixel column `i` after the column bands of a border of thickness `th`
/// are drawn into the pixel columns `l..=r`: column `r - k` in `br`, then column `l + k`
/// in `tl`, for each `k` below `th`.
pub open spec fn border_column_color(l: int, r: int, th: int, i: int, tl: u32, br: u32, before: u32) -> u32 {
    let in_left = l <= i < l + th;
    let in_right = r - th < i <= r;
    if in_left && in_right {
        if i - l >= r - i {
            tl
        } else {
            br
        }
    } else if in_left {
        tl
    } else if in_right {
        br
    } else {
        before
    }
}

/// The colour of pixel (`i`, `j`) after a border of thickness `th` is drawn along the inner
/// edge of the pixel rectangle with rows `t..=b` and columns `l..=r`: the top and left bands
/// in `tl`, the bottom and right bands in `br`, the column bands over the row bands.
pub open spec fn border_pixel(
    t: int,
    b: int,
    l: int,
    r: int,
    th: int,
    i: int,
    j: int,
    tl: u32,
    br: u32,
    before: u32,
) -> u32 {
    if t <= j <= b && l <= i <= r {
        border_column_color(l, r, th, i, tl, br, border_row_color(t, b, th, j, tl, br, before))
    } else {
        before
    }
}

/// The colour of pixel (`x`, `y`) of a row between the top and the bottom character line of
/// a box with pixel columns `l..=r` whose edge leaves `space` pixels of background: the left
/// character column in background then `tl`, the right one in `br` then background.
pub open spec fn box_side_pixel(l: int, r: int, space: int, x: int, bg: u32, tl: u32, br: u32, before: u32) -> u32 {
    if r - 7 <= x <= r {
        if x <= r - space {
            br
        } else {
            bg
        }
    } else if l <= x < l + 8 {
        if x < l + space {
            bg
        } else {
            tl
        }
    } else {
        before
    }
}

/// The colour of pixel (`x`, `y`) of the top character line (pixel rows `t..t + 8`) of a box
/// with pixel columns `l..=r`: background above the edge and outside it, the edge in `tl`
/// up to a diagonal near the right end and in `br` after it.
pub open spec fn box_top_pixel(
    t: int,
    l: int,
    r: int,
    space: int,
    x: int,
    y: int,
    bg: u32,
    tl: u32,
    br: u32,
    before: u32,
) -> u32 {
    if l <= x <= r {
        if y < t + space || x < l + space || x > r - space {
            bg
        } else if x < r - space - (y - (t + space)) {
            tl
        } else {
            br
        }
    } else {
        before
    }
}

/// The colour of pixel (`x`, `y`) of the bottom character line (pixel rows `b - 7..=b`) of a
/// box with pixel columns `l..=r`: background below the edge and outside it, the edge in
/// `tl` up to a diagonal near the left end and in `br` after it.
pub open spec fn box_bottom_pixel(
    b: int,
    l: int,
    r: int,
    space: int,
    x: int,
    y: int,
    bg: u32,
    tl: u32,
    br: u32,
    before: u32,
) -> u32 {
    if l <= x <= r {
        if y > b - space || x < l + space || x > r - space {
            bg
        } else if x < l + (b - y) {
            tl
        } else {
            br
        }
    } else {
        before
    }
}

/// The colour of pixel (`x`, `y`) after a box is drawn into the pixel rectangle with rows
/// `t..=b` and columns `l..=r`, with an edge `8 - space` pixels thick: the sides first, then
/// the top character line, then the bottom one.
pub open spec fn box_pixel(
    t: int,
    b: int,
    l: int,
    r: int,
    space: int,
    x: int,
    y: int,
    bg: u32,
    tl: u32,
    br: u32,
    before: u32,
) -> u32 {
    if b - 7 <= y <= b {
        box_bottom_pixel(b, l, r, space, x, y, bg, tl, br, before)
    } else if t <= y < t + 8 {
        box_top_pixel(t, l, r, space, x, y, bg, tl, br, before)
    } else if t + 8 <= y <= b - 8 {
        box_side_pixel(l, r, space, x, bg, tl, br, before)
    } else {
        before
    }
}

/// One drawing call, as far as the pixels it sets are concerned. Colours are palette
/// indices; text and glyph positions are character cells.
pub enum Paint {
    /// `draw_rect`: the character cells in rows `top..=bot` and columns `left..=right`
    Rect { color: u8, top: int, bot: int, left: int, right: int },
    /// `draw_pixel_rect`: the pixels in rows `top..=bot` and columns `left..=right`
    Pixels { color: u8, top: int, bot: int, left: int, right: int },
    /// `draw_char`
    Glyph { glyph: Seq<u8>, x: int, y: int, fg: u8, bg: u8 },
    /// `draw_string`
    Text { text: Seq<char>, x: int, y: int, fg: u8, bg: u8 },
    /// `draw_string_length`
    TextFit { text: Seq<char>, x: int, y: int, width: int, fg: u8, bg: u8 },
    /// `draw_in_box` on the character cells in rows `top..=bot` and columns `left..=right`,
    /// with `space` the pixels of background outside the edge
    Box { top: int, bot: int, left: int, right: int, space: int, bg: u8, tl: u8, br: u8 },
    /// `draw_out_border` on the character cells in rows `top..=bot` and columns `left..=right`
    Border { top: int, bot: int, left: int, right: int, thickness: int, tl: u8, br: u8 },
    /// The raw value `value` written into the triangles at the top right and the bottom left
    /// corner of the character cells in rows `top..=bot` and columns `left..=right`
    Corners { top: int, bot: int, left: int, right: int, value: u32 },
}

/// Whether pixel (`x`, `y`) lies in one of the two corner triangles of the pixel rectangle
/// with rows `t..=b` and columns `l..=r`: at the top right the pixels on and right of the
/// diagonal of the last character cell, at the bottom left those on and left of it.
pub open spec fn in_corner(t: int, b: int, l: int, r: int, x: int, y: int) -> bool {
    ||| (t <= y < t + 8 && r - 7 + (y - t) <= x <= r)
    ||| (b - 8 < y <= b && l <= x < l + 8 - (b - y))
}

/// The colour that `cmd` gives pixel (`x`, `y`), with `palette` the raw palette colours and
/// `before` the colour the pixel had.
pub open spec fn paint_pixel(cmd: Paint, palette: Seq<u32>, x: int, y: int, before: u32) -> u32 {
    match cmd {
        Paint::Rect { color, top, bot, left, right } => if top <= y / 8 <= bot && left <= x / 8 <= right {
            palette[color as int]
        } else {
            before
        },
        Paint::Pixels { color, top, bot, left, right } => if top <= y <= bot && left <= x <= right {
            palette[color as int]
        } else {
            before
        },
        Paint::Glyph { glyph, x: cx, y: cy, fg, bg } => if in_cell(cx * 8, cy * 8, x, y) {
            glyph_pixel(glyph, cx * 8, cy * 8, x, y, palette[fg as int], palette[bg as int])
        } else {
            before
        },
        Paint::Text { text, x: cx, y: cy, fg, bg } => text_pixel(
            text,
            cx,
            cy,
            x,
            y,
            palette[fg as int],
            palette[bg as int],
            before,
        ),
        Paint::TextFit { text, x: cx, y: cy, width, fg, bg } => padded_text_pixel(
            text,
            width,
            cx,
            cy,
            x,
            y,
            palette[fg as int],
            palette[bg as int],
            before,
        ),
        Paint::Box { top, bot, left, right, space, bg, tl, br } => box_pixel(
            top * 8,
            bot * 8 + 7,
            left * 8,
            right * 8 + 7,
            space,
            x,
            y,
            palette[bg as int],
            palette[tl as int],
            palette[br as int],
            before,
        ),
        Paint::Corners { top, bot, left, right, value } => if in_corner(top * 8, bot * 8 + 7, left * 8, right * 8 + 7, x, y) {
            value
        } else {
            before
        },
        Paint::Border { top, bot, left, right, thickness, tl, br } => border_pixel(
            top * 8,
            bot * 8 + 7,
            left * 8,
            right * 8 + 7,
            thickness,
            x,
            y,
            palette[tl as int],
            palette[br as int],
            before,
        ),
    }
}

/// The colour of pixel (`x`, `y`) after the drawing calls `cmds`, one after the other.
pub open spec fn paint(cmds: Seq<Paint>, palette: Seq<u32>, x: int, y: int, before: u32) -> u32
    decreases cmds.len(),
{
    if cmds.len() == 0 {
        before
    } else {
        paint_pixel(cmds.last(), palette, x, y, paint(cmds.drop_last(), palette, x, y, before))
    }
}

/// Drawing `a` and then `b` is drawing `a + b`.
pub proof fn lemma_paint_concat(a: Seq<Paint>, b: Seq<Paint>, palette: Seq<u32>, x: int, y: int, before: u32)
    ensures
        paint(a + b, palette, x, y, before) == paint(b, palette, x, y, paint(a, palette, x, y, before)),
    decreases b.len(),
{
    if b.len() == 0 {
        assert(a + b =~= a);
    } else {
        lemma_paint_concat(a, b.drop_last(), palette, x, y, before);
        assert((a + b).drop_last() =~= a + b.drop_last());
    }
}

/// Whether `cmd` draws only into the character rows `top..=bot`.
pub open spec fn within_rows(cmd: Paint, top: int, bot: int) -> bool {
    match cmd {
        Paint::Rect { top: t, bot: b, .. } => top <= t && b <= bot,
        Paint::Pixels { top: t, bot: b, .. } => top * 8 <= t && b <= bot * 8 + 7,
        Paint::Glyph { y, .. } => top <= y <= bot,
        Paint::Text { y, .. } => top <= y <= bot,
        Paint::TextFit { y, .. } => top <= y <= bot,
        Paint::Box { top: t, bot: b, .. } => top <= t <= bot && top <= b <= bot,
        Paint::Border { top: t, bot: b, .. } => top <= t && b <= bot,
        Paint::Corners { top: t, bot: b, .. } => top <= t <= bot && top <= b <= bot,
    }
}

/// Whether all of `cmds` draw only into the character rows `top..=bot`.
pub open spec fn all_within_rows(cmds: Seq<Paint>, top: int, bot: int) -> bool {
    forall|i: int| 0 <= i < cmds.len() ==> within_rows(#[trigger] cmds[i], top, bot)
}

/// Commands that stay within some rows, one after the other, stay within them.
pub proof fn lemma_within_rows_concat(a: Seq<Paint>, b: Seq<Paint>, top: int, bot: int)
    requires
        all_within_rows(a, top, bot),
        all_within_rows(b, top, bot),
    ensures
        all_within_rows(a + b, top, bot),
{
    assert forall|i: int| 0 <= i < (a + b).len() implies within_rows(#[trigger] (a + b)[i], top, bot) by {
        if i < a.len() {
            assert((a + b)[i] == a[i]);
        } else {
            assert((a + b)[i] == b[i - a.len()]);
        }
    }
}

/// Commands within rows narrower than others are within those too.
pub proof fn lemma_within_rows_wider(cmds: Seq<Paint>, top: int, bot: int, wide_top: int, wide_bot: int)
    requires
        all_within_rows(cmds, top, bot),
        wide_top <= top,
        bot <= wide_bot,
    ensures
        all_within_rows(cmds, wide_top, wide_bot),
{
    assert forall|i: int| 0 <= i < cmds.len() implies within_rows(#[trigger] cmds[i], wide_top, wide_bot) by {
        assert(within_rows(cmds[i], top, bot));
    }
}

proof fn lemma_paint_pixel_outside_rows(cmd: Paint, top: int, bot: int, palette: Seq<u32>, x: int, y: int, before: u32)
    requires
        within_rows(cmd, top, bot),
        y < top * 8 || y > bot * 8 + 7,
        0 <= y,
    ensures
        paint_pixel(cmd, palette, x, y, before) == before,
{
    match cmd {
        Paint::Text { text, x: cx, y: cy, fg, bg } => {
            assert(y / 8 != cy) by (nonlinear_arith)
                requires
                    y < top * 8 || y > bot * 8 + 7,
                    top <= cy <= bot,
                    0 <= y,
            ;
        },
        Paint::TextFit { y: cy, .. } => {
            assert(y / 8 != cy) by (nonlinear_arith)
                requires
                    y < top * 8 || y > bot * 8 + 7,
                    top <= cy <= bot,
                    0 <= y,
            ;
        },
        _ => {},
    }
}

/// Commands that draw only into the character rows `top..=bot` leave every pixel of the
/// other rows as it was.
pub proof fn lemma_paint_outside_rows(cmds: Seq<Paint>, top: int, bot: int, palette: Seq<u32>, x: int, y: int, before: u32)
    requires
        all_within_rows(cmds, top, bot),
        y / 8 < top || y / 8 > bot,
        0 <= y,
    ensures
        paint(cmds, palette, x, y, before) == before,
    decreases cmds.len(),
{
    if cmds.len() > 0 {
        let rest = cmds.drop_last();
        assert(all_within_rows(rest, top, bot)) by {
            assert forall|i: int| 0 <= i < rest.len() implies within_rows(#[trigger] rest[i], top, bot) by {
                assert(rest[i] == cmds[i]);
            }
        }
        lemma_paint_outside_rows(rest, top, bot, palette, x, y, before);
        assert(within_rows(cmds[cmds.len() - 1], top, bot));
        assert(y < top * 8 || y > bot * 8 + 7) by (nonlinear_arith)
            requires
                0 <= y,
                y / 8 < top || y / 8 > bot,
        ;
        lemma_paint_pixel_outside_rows(cmds.last(), top, bot, palette, x, y, before);
    }
}

/// The raw values of the 16 colours of the camouflage palette.
pub open spec fn camouflage_view() -> Seq<u32> {
    Seq::new(16, |i: int| rgb10a2_value(camouflage_colors()[i]) as u32)
}

pub struct DrawBuffer {
    /// The pixels, row after row, each one the raw value of its colour.
    pub framebuffer: Vec<u32>,
    /// The colours that the palette indices stand for.
    color_palette: Palette<RGB10A2>,
}

impl DrawBuffer {
    pub const BACKGROUND_COLOR: u8 = 2;

    /// The frame buffer has one entry per pixel of the window, and the colours are those of
    /// the camouflage palette.
    pub open spec fn wf(&self) -> bool {
        &&& self.frame().len() == FRAMEBUFFER_LEN
        &&& self.palette_view() == camouflage_view()
    }

    /// The raw colour of pixel column `x` and row `y`.
    pub open spec fn pixel(&self, x: int, y: int) -> u32 {
        self.frame()[y * 640 + x]
    }

    /// The pixels, row after row.
    pub closed spec fn frame(&self) -> Seq<u32> {
        self.framebuffer@
    }

    /// The pixels, row after row, each one the raw value of its colour.
    pub fn pixels(&self) -> (r: &Vec<u32>)
        ensures
            r@ == self.frame(),
    {
        &self.framebuffer
    }

    /// The raw values of the 16 palette colours.
    pub closed spec fn palette_view(&self) -> Seq<u32> {
        Seq::new(16, |i: int| self.color_palette.0@[i].0)
    }

    /// The raw value of palette colour `index`.
    pub open spec fn raw_color(&self, index: int) -> u32 {
        self.palette_view()[index]
    }

    /// What a drawing call keeps: the buffer stays well formed and the palette unchanged.
    pub open spec fn keeps(&self, before: &DrawBuffer) -> bool {
        &&& self.wf()
        &&& self.palette_view() == before.palette_view()
    }

    /// All pixels outside of `changed` keep their colour.
    pub open spec fn same_outside(&self, before: &DrawBuffer, changed: spec_fn(int, int) -> bool) -> bool {
        forall|x: int, y: int|
            on_screen(x, y) && !changed(x, y) ==> #[trigger] self.pixel(x, y) == before.pixel(x, y)
    }

    /// The buffer went from `before` to `self` by the drawing calls `cmds`.
    pub open spec fn painted(&self, before: &DrawBuffer, cmds: Seq<Paint>) -> bool {
        &&& self.keeps(before)
        &&& forall|x: int, y: int|
            on_screen(x, y) ==> #[trigger] self.pixel(x, y) == paint(cmds, before.palette_view(), x, y, before.pixel(x, y))
    }

    /// Two well formed buffers with the same pixels on the screen hold the same frame.
    pub proof fn lemma_same_pixels_same_frame(a: &DrawBuffer, b: &DrawBuffer)
        requires
            a.wf(),
            b.wf(),
            forall|x: int, y: int| on_screen(x, y) ==> #[trigger] a.pixel(x, y) == b.pixel(x, y),
        ensures
            a.frame() == b.frame(),
    {
        assert forall|k: int| 0 <= k < a.frame().len() implies a.frame()[k] == b.frame()[k] by {
            let x = k % 640;
            let y = k / 640;
            assert(y * 640 + x == k && 0 <= x < 640 && 0 <= y < 400) by (nonlinear_arith)
                requires
                    0 <= k < 256_000,
                    x == k % 640,
                    y == k / 640,
            ;
            assert(a.pixel(x, y) == b.pixel(x, y));
        }
        assert(a.frame() =~= b.frame());
    }

    /// Drawing `cmds1` and then `cmds2` draws `cmds1 + cmds2`.
    pub proof fn lemma_painted_then(a: &DrawBuffer, b: &DrawBuffer, c: &DrawBuffer, cmds1: Seq<Paint>, cmds2: Seq<Paint>)
        requires
            b.painted(a, cmds1),
            c.painted(b, cmds2),
        ensures
            c.painted(a, cmds1 + cmds2),
    {
        assert forall|x: int, y: int| on_screen(x, y) implies #[trigger] c.pixel(x, y) == paint(
            cmds1 + cmds2,
            a.palette_view(),
            x,
            y,
            a.pixel(x, y),
        ) by {
            lemma_paint_concat(cmds1, cmds2, a.palette_view(), x, y, a.pixel(x, y));
            assert(b.pixel(x, y) == paint(cmds1, a.palette_view(), x, y, a.pixel(x, y)));
        }
    }

    /// A buffer changed as `cmd` demands was painted by `cmd`.
    pub proof fn lemma_painted_one(a: &DrawBuffer, b: &DrawBuffer, cmd: Paint)
        requires
            b.keeps(a),
            forall|x: int, y: int|
                on_screen(x, y) ==> #[trigger] b.pixel(x, y) == paint_pixel(cmd, a.palette_view(), x, y, a.pixel(x, y)),
        ensures
            b.painted(a, seq![cmd]),
    {
        let one = seq![cmd];
        assert(one.drop_last() =~= Seq::<Paint>::empty());
        assert forall|x: int, y: int| on_screen(x, y) implies #[trigger] b.pixel(x, y) == paint(
            one,
            a.palette_view(),
            x,
            y,
            a.pixel(x, y),
        ) by {
            assert(paint(one.drop_last(), a.palette_view(), x, y, a.pixel(x, y)) == a.pixel(x, y));
        }
    }

    /// Drawing nothing leaves the buffer as it is.
    pub proof fn lemma_painted_nothing(a: &DrawBuffer)
        requires
            a.wf(),
        ensures
            a.painted(a, Seq::empty()),
    {
    }

    pub fn new() -> (r: Self)
        ensures
            r.wf(),
            forall|x: int, y: int| on_screen(x, y) ==> #[trigger] r.pixel(x, y) == 0,
            forall|i: int| 0 <= i < 16 ==> #[trigger] r.raw_color(i) == rgb10a2_value(camouflage_colors()[i]),
    {
        let framebuffer: Vec<u32> = vec![0u32; FRAMEBUFFER_LEN];
        let r = Self { framebuffer, color_palette: Palette::camouflage().into() };
        assert(r.palette_view() =~= camouflage_view());
        assert forall|x: int, y: int| on_screen(x, y) implies #[trigger] r.pixel(x, y) == 0 by {
            assert(0 <= y * 640 + x < FRAMEBUFFER_LEN);
        }
        r
    }

    pub fn get_raw_color(&self, index: u8) -> (r: u32)
        requires
            index < PALETTE_SIZE,
        ensures
            r == self.raw_color(index as int),
    {
        self.color_palette.get_raw(index)
    }

    pub(crate) fn set_pixel(&mut self, x: usize, y: usize, color: u32)
        requires
            old(self).wf(),
            x < WINDOW_WIDTH,
            y < WINDOW_HEIGHT,
        ensures
            final(self).keeps(old(self)),
            forall|i: int, j: int|
                on_screen(i, j) ==> #[trigger] final(self).pixel(i, j) == if i == x && j == y {
                    color
                } else {
                    old(self).pixel(i, j)
                },
    {
        let idx = y * WINDOW_WIDTH + x;
        self.framebuffer.set(idx, color);
    }

    /// Sets the pixels `from..to` of row `y` to `color`.
    fn fill_row_segment(&mut self, y: usize, from: usize, to: usize, color: u32)
        requires
            old(self).wf(),
            from <= to <= WINDOW_WIDTH,
            y < WINDOW_HEIGHT,
        ensures
            final(self).keeps(old(self)),
            forall|i: int, j: int|
                on_screen(i, j) ==> #[trigger] final(self).pixel(i, j) == if j == y && from <= i < to {
                    color
                } else {
                    old(self).pixel(i, j)
                },
    {
        let mut x = from;
        while x < to
            invariant
                from <= x <= to <= WINDOW_WIDTH,
                y < WINDOW_HEIGHT,
                self.keeps(old(self)),
                forall|i: int, j: int|
                    on_screen(i, j) ==> #[trigger] self.pixel(i, j) == if j == y && from <= i < x {
                        color
                    } else {
                        old(self).pixel(i, j)
                    },
            decreases to - x,
        {
            self.set_pixel(x, y, color);
            x += 1;
        }
    }

    /// Draws a border of `thickness` pixels along the inner edge of `char_rect`: the top and
    /// left sides in `top_left_color`, the bottom and right sides in `bot_right_color`.
    /// The inside is not touched: a background has to be drawn before.
    pub fn draw_out_border(
        &mut self,
        char_rect: CharRect,
        top_left_color: u8,
        bot_right_color: u8,
        thickness: usize,
    )
        requires
            old(self).wf(),
            top_left_color < PALETTE_SIZE,
            bot_right_color < PALETTE_SIZE,
            0 < thickness <= FONT_SIZE,
        ensures
            final(self).painted(old(self), seq![Paint::Border { top: char_rect.spec_top(), bot: char_rect.spec_bot(), left: char_rect.spec_left(), right: char_rect.spec_right(), thickness: thickness as int, tl: top_left_color, br: bot_right_color }]),
            final(self).keeps(old(self)),
            forall|x: int, y: int|
                on_screen(x, y) ==> #[trigger] final(self).pixel(x, y) == border_pixel(
                    char_rect.spec_top() * 8,
                    char_rect.spec_bot() * 8 + 7,
                    char_rect.spec_left() * 8,
                    char_rect.spec_right() * 8 + 7,
                    thickness as int,
                    x,
                    y,
                    old(self).raw_color(top_left_color as int),
                    old(self).raw_color(bot_right_color as int),
                    old(self).pixel(x, y),
                ),
    {
        let ghost before = *self;
        let pixel_rect = PixelRect::from(char_rect);
        let tl = self.get_raw_color(top_left_color);
        let br = self.get_raw_color(bot_right_color);
        let top = pixel_rect.top();
        let bot = pixel_rect.bot();
        let left = pixel_rect.left();
        let right = pixel_rect.right();
        let mut x = left;
        while x <= right
            invariant
                left <= x <= right + 1,
                right < WINDOW_WIDTH,
                bot < WINDOW_HEIGHT,
                top + 7 <= bot,
                left + 7 <= right,
                0 < thickness <= 8,
                self.keeps(old(self)),
                forall|i: int, j: int|
                    on_screen(i, j) ==> #[trigger] self.pixel(i, j) == if left <= i < x {
                        border_row_color(top as int, bot as int, thickness as int, j, tl, br, old(self).pixel(i, j))
                    } else {
                        old(self).pixel(i, j)
                    },
            decreases right + 1 - x,
        {
            let mut y: usize = 0;
            while y < thickness
                invariant
                    left <= x <= right,
                    right < WINDOW_WIDTH,
                    bot < WINDOW_HEIGHT,
                    top + 7 <= bot,
                    y <= thickness <= 8,
                    self.keeps(old(self)),
                    forall|i: int, j: int|
                        on_screen(i, j) ==> #[trigger] self.pixel(i, j) == if left <= i < x {
                            border_row_color(top as int, bot as int, thickness as int, j, tl, br, old(self).pixel(i, j))
                        } else if i == x {
                            border_row_color(top as int, bot as int, y as int, j, tl, br, old(self).pixel(i, j))
                        } else {
                            old(self).pixel(i, j)
                        },
                decreases thickness - y,
            {
                self.set_pixel(x, top + y, tl);
                self.set_pixel(x, bot - y, br);
                y += 1;
            }
            x += 1;
        }
        let ghost mid = *self;
        let mut y = top;
        while y <= bot
            invariant
                top <= y <= bot + 1,
                right < WINDOW_WIDTH,
                bot < WINDOW_HEIGHT,
                left + 7 <= right,
                0 < thickness <= 8,
                self.keeps(old(self)),
                forall|i: int, j: int|
                    on_screen(i, j) ==> #[trigger] self.pixel(i, j) == if top <= j < y && left <= i <= right {
                        border_column_color(left as int, right as int, thickness as int, i, tl, br, mid.pixel(i, j))
                    } else {
                        mid.pixel(i, j)
                    },
            decreases bot + 1 - y,
        {
            let mut x: usize = 0;
            while x < thickness
                invariant
                    top <= y <= bot,
                    right < WINDOW_WIDTH,
                    bot < WINDOW_HEIGHT,
                    left + 7 <= right,
                    x <= thickness <= 8,
                    self.keeps(old(self)),
                    forall|i: int, j: int|
                        on_screen(i, j) ==> #[trigger] self.pixel(i, j) == if top <= j < y && left <= i <= right {
                            border_column_color(left as int, right as int, thickness as int, i, tl, br, mid.pixel(i, j))
                        } else if j == y && left <= i <= right {
                            border_column_color(left as int, right as int, x as int, i, tl, br, mid.pixel(i, j))
                        } else {
                            mid.pixel(i, j)
                        },
                decreases thickness - x,
            {
                self.set_pixel(right - x, y, br);
                self.set_pixel(left + x, y, tl);
                x += 1;
            }
            y += 1;
        }
        proof {
            Self::lemma_painted_one(&before, self, Paint::Border { top: char_rect.spec_top(), bot: char_rect.spec_bot(), left: char_rect.spec_left(), right: char_rect.spec_right(), thickness: thickness as int, tl: top_left_color, br: bot_right_color });
        }
    }

    /// Draws pixel row `y` of the rows between the top and the bottom character line of a box.
    fn draw_box_side_row(&mut self, y: usize, left: usize, right: usize, space: usize, bg: u32, tl: u32, br: u32)
        requires
            old(self).wf(),
            y < WINDOW_HEIGHT,
            8 <= right < WINDOW_WIDTH,
            left + 7 <= right,
            space <= 8,
        ensures
            final(self).keeps(old(self)),
            forall|i: int, j: int|
                on_screen(i, j) ==> #[trigger] final(self).pixel(i, j) == if j == y {
                    box_side_pixel(left as int, right as int, space as int, i, bg, tl, br, old(self).pixel(i, j))
                } else {
                    old(self).pixel(i, j)
                },
    {
        // left side foreground
        self.fill_row_segment(y, left + space, left + FONT_SIZE, tl);
        let ghost s1 = *self;
        // left side background
        self.fill_row_segment(y, left, left + space, bg);
        let ghost s2 = *self;
        // right side foreground
        self.fill_row_segment(y, right - FONT_SIZE + 1, right - space + 1, br);
        let ghost s3 = *self;
        // right side background
        self.fill_row_segment(y, right - space + 1, right + 1, bg);
        assert forall|i: int, j: int| on_screen(i, j) implies #[trigger] self.pixel(i, j) == if j == y {
            box_side_pixel(left as int, right as int, space as int, i, bg, tl, br, old(self).pixel(i, j))
        } else {
            old(self).pixel(i, j)
        } by {
            assert(s3.pixel(i, j) == if j == y && right - 7 <= i <= right - space { br } else { s2.pixel(i, j) });
            assert(s2.pixel(i, j) == if j == y && left <= i < left + space { bg } else { s1.pixel(i, j) });
        }
    }

    /// Draws pixel row `y` of the top character line of a box.
    fn draw_box_top_row(
        &mut self,
        y: usize,
        top: usize,
        left: usize,
        right: usize,
        space: usize,
        bg: u32,
        tl: u32,
        br: u32,
    )
        requires
            old(self).wf(),
            top <= y < top + 8,
            y < WINDOW_HEIGHT,
            right < WINDOW_WIDTH,
            left + 7 <= right,
            space <= 8,
        ensures
            final(self).keeps(old(self)),
            forall|i: int, j: int|
                on_screen(i, j) ==> #[trigger] final(self).pixel(i, j) == if j == y {
                    box_top_pixel(
                        top as int,
                        left as int,
                        right as int,
                        space as int,
                        i,
                        j,
                        bg,
                        tl,
                        br,
                        old(self).pixel(i, j),
                    )
                } else {
                    old(self).pixel(i, j)
                },
    {
        if y < top + space {
            self.fill_row_segment(y, left, right + 1, bg);
        } else {
            let mut x = left;
            while x <= right
                invariant
                    left <= x <= right + 1,
                    top + space <= y < top + 8,
                    y < WINDOW_HEIGHT,
                    right < WINDOW_WIDTH,
                    left + 7 <= right,
                    space <= 8,
                    self.keeps(old(self)),
                    forall|i: int, j: int|
                        on_screen(i, j) ==> #[trigger] self.pixel(i, j) == if j == y && left <= i < x {
                            box_top_pixel(
                                top as int,
                                left as int,
                                right as int,
                                space as int,
                                i,
                                j,
                                bg,
                                tl,
                                br,
                                old(self).pixel(i, j),
                            )
                        } else {
                            old(self).pixel(i, j)
                        },
                decreases right + 1 - x,
            {
                let color = if x < left + space || x > right - space {
                    bg
                } else if x < right - space - (y - (top + space)) {
                    tl
                } else {
                    br
                };
                self.set_pixel(x, y, color);
                x += 1;
            }
        }
    }

    /// Draws pixel row `y` of the bottom character line of a box.
    fn draw_box_bottom_row(
        &mut self,
        y: usize,
        bot: usize,
        left: usize,
        right: usize,
        space: usize,
        bg: u32,
        tl: u32,
        br: u32,
    )
        requires
            old(self).wf(),
            bot - 8 < y <= bot,
            8 <= bot < WINDOW_HEIGHT,
            right < WINDOW_WIDTH,
            left + 7 <= right,
            space <= 8,
        ensures
            final(self).keeps(old(self)),
            forall|i: int, j: int|
                on_screen(i, j) ==> #[trigger] final(self).pixel(i, j) == if j == y {
                    box_bottom_pixel(
                        bot as int,
                        left as int,
                        right as int,
                        space as int,
                        i,
                        j,
                        bg,
                        tl,
                        br,
                        old(self).pixel(i, j),
                    )
                } else {
                    old(self).pixel(i, j)
                },
    {
        // the rows below the edge stay in background colour
        if y > bot - space {
            self.fill_row_segment(y, left, right + 1, bg);
        } else {
            let mut x = left;
            while x <= right
                invariant
                    left <= x <= right + 1,
                    bot - 8 < y <= bot - space,
                    8 <= bot < WINDOW_HEIGHT,
                    right < WINDOW_WIDTH,
                    left + 7 <= right,
                    space <= 8,
                    self.keeps(old(self)),
                    forall|i: int, j: int|
                        on_screen(i, j) ==> #[trigger] self.pixel(i, j) == if j == y && left <= i < x {
                            box_bottom_pixel(
                                bot as int,
                                left as int,
                                right as int,
                                space as int,
                                i,
                                j,
                                bg,
                                tl,
                                br,
                                old(self).pixel(i, j),
                            )
                        } else {
                            old(self).pixel(i, j)
                        },
                decreases right + 1 - x,
            {
                let color = if x < left + space || x > right - space {
                    bg
                } else if x < left + (bot - y) {
                    tl
                } else {
                    br
                };
                self.set_pixel(x, y, color);
                x += 1;
            }
        }
    }

    /// Draws a box along the inner edge of `char_rect`, its edge `thickness` pixels thick: the
    /// top and left sides in `top_left_color`, the bottom and right sides in
    /// `bot_right_color`, the outer `8 - thickness` pixels of the edge characters in
    /// `background_color`. Whatever lies inside the edge characters is not touched.
    pub fn draw_in_box(
        &mut self,
        char_rect: CharRect,
        background_color: u8,
        top_left_color: u8,
        bot_right_color: u8,
        thickness: usize,
    )
        requires
            old(self).wf(),
            background_color < PALETTE_SIZE,
            top_left_color < PALETTE_SIZE,
            bot_right_color < PALETTE_SIZE,
            thickness <= FONT_SIZE,
            char_rect.spec_bot() >= 1,
            char_rect.spec_bot() - char_rect.spec_top() >= 2 ==> char_rect.spec_right() >= 1,
        ensures
            final(self).painted(old(self), seq![Paint::Box { top: char_rect.spec_top(), bot: char_rect.spec_bot(), left: char_rect.spec_left(), right: char_rect.spec_right(), space: 8 - thickness, bg: background_color, tl: top_left_color, br: bot_right_color }]),
            final(self).keeps(old(self)),
            forall|x: int, y: int|
                on_screen(x, y) ==> #[trigger] final(self).pixel(x, y) == box_pixel(
                    char_rect.spec_top() * 8,
                    char_rect.spec_bot() * 8 + 7,
                    char_rect.spec_left() * 8,
                    char_rect.spec_right() * 8 + 7,
                    8 - thickness,
                    x,
                    y,
                    old(self).raw_color(background_color as int),
                    old(self).raw_color(top_left_color as int),
                    old(self).raw_color(bot_right_color as int),
                    old(self).pixel(x, y),
                ),
    {
        let ghost before = *self;
        let space = FONT_SIZE - thickness;
        let pixel_rect = PixelRect::from(char_rect);
        let bg = self.color_palette.get_raw(background_color);
        let tl = self.color_palette.get_raw(top_left_color);
        let br = self.color_palette.get_raw(bot_right_color);
        let top = pixel_rect.top();
        let bot = pixel_rect.bot();
        let left = pixel_rect.left();
        let right = pixel_rect.right();
        // all pixel lines except those in top and bottom char line
        let last = bot - FONT_SIZE;
        let mut y = top + FONT_SIZE;
        while y <= last
            invariant
                top + 8 <= y,
                y <= last + 1 || y == top + 8,
                last + 8 == bot,
                bot < WINDOW_HEIGHT,
                right < WINDOW_WIDTH,
                left + 7 <= right,
                space <= 8,
                top == char_rect.spec_top() * 8,
                bot == char_rect.spec_bot() * 8 + 7,
                right == char_rect.spec_right() * 8 + 7,
                char_rect.spec_bot() - char_rect.spec_top() >= 2 ==> char_rect.spec_right() >= 1,
                self.keeps(old(self)),
                forall|i: int, j: int|
                    on_screen(i, j) ==> #[trigger] self.pixel(i, j) == if top + 8 <= j < y {
                        box_side_pixel(left as int, right as int, space as int, i, bg, tl, br, old(self).pixel(i, j))
                    } else {
                        old(self).pixel(i, j)
                    },
            decreases last + 1 - y,
        {
            self.draw_box_side_row(y, left, right, space, bg, tl, br);
            y += 1;
        }
        let ghost s1 = *self;
        // top char line
        let mut y = top;
        while y < top + FONT_SIZE
            invariant
                top <= y <= top + 8,
                top + 7 <= bot < WINDOW_HEIGHT,
                right < WINDOW_WIDTH,
                left + 7 <= right,
                space <= 8,
                self.keeps(old(self)),
                forall|i: int, j: int|
                    on_screen(i, j) ==> #[trigger] self.pixel(i, j) == if top <= j < y {
                        box_top_pixel(
                            top as int,
                            left as int,
                            right as int,
                            space as int,
                            i,
                            j,
                            bg,
                            tl,
                            br,
                            s1.pixel(i, j),
                        )
                    } else {
                        s1.pixel(i, j)
                    },
            decreases top + 8 - y,
        {
            self.draw_box_top_row(y, top, left, right, space, bg, tl, br);
            y += 1;
        }
        let ghost s2 = *self;
        // bottom char line
        let mut y = bot - FONT_SIZE + 1;
        while y <= bot
            invariant
                bot - 7 <= y <= bot + 1,
                8 <= bot < WINDOW_HEIGHT,
                right < WINDOW_WIDTH,
                left + 7 <= right,
                space <= 8,
                self.keeps(old(self)),
                forall|i: int, j: int|
                    on_screen(i, j) ==> #[trigger] self.pixel(i, j) == if bot - 7 <= j < y {
                        box_bottom_pixel(
                            bot as int,
                            left as int,
                            right as int,
                            space as int,
                            i,
                            j,
                            bg,
                            tl,
                            br,
                            s2.pixel(i, j),
                        )
                    } else {
                        s2.pixel(i, j)
                    },
            decreases bot + 1 - y,
        {
            self.draw_box_bottom_row(y, bot, left, right, space, bg, tl, br);
            y += 1;
        }
        assert forall|x: int, y: int| on_screen(x, y) implies #[trigger] self.pixel(x, y) == box_pixel(
            top as int,
            bot as int,
            left as int,
            right as int,
            space as int,
            x,
            y,
            bg,
            tl,
            br,
            old(self).pixel(x, y),
        ) by {
            assert(s2.pixel(x, y) == if top <= y < top + 8 {
                box_top_pixel(top as int, left as int, right as int, space as int, x, y, bg, tl, br, s1.pixel(x, y))
            } else {
                s1.pixel(x, y)
            });
            assert(s1.pixel(x, y) == if top + 8 <= y <= bot - 8 {
                box_side_pixel(left as int, right as int, space as int, x, bg, tl, br, old(self).pixel(x, y))
            } else {
                old(self).pixel(x, y)
            });
        }
        proof {
            Self::lemma_painted_one(&before, self, Paint::Box { top: char_rect.spec_top(), bot: char_rect.spec_bot(), left: char_rect.spec_left(), right: char_rect.spec_right(), space: 8 - thickness, bg: background_color, tl: top_left_color, br: bot_right_color });
        }
    }

    /// Draws a box whose edge is two pixels thick (see `draw_in_box`).
    pub fn draw_box(&mut self, char_rect: CharRect, background_color: u8, top_left_color: u8, bot_right_color: u8)
        requires
            old(self).wf(),
            background_color < PALETTE_SIZE,
            top_left_color < PALETTE_SIZE,
            bot_right_color < PALETTE_SIZE,
            char_rect.spec_bot() >= 1,
            char_rect.spec_bot() - char_rect.spec_top() >= 2 ==> char_rect.spec_right() >= 1,
        ensures
            final(self).painted(old(self), seq![Paint::Box { top: char_rect.spec_top(), bot: char_rect.spec_bot(), left: char_rect.spec_left(), right: char_rect.spec_right(), space: 6, bg: background_color, tl: top_left_color, br: bot_right_color }]),
            final(self).keeps(old(self)),
            forall|x: int, y: int|
                on_screen(x, y) ==> #[trigger] final(self).pixel(x, y) == box_pixel(
                    char_rect.spec_top() * 8,
                    char_rect.spec_bot() * 8 + 7,
                    char_rect.spec_left() * 8,
                    char_rect.spec_right() * 8 + 7,
                    6,
                    x,
                    y,
                    old(self).raw_color(background_color as int),
                    old(self).raw_color(top_left_color as int),
                    old(self).raw_color(bot_right_color as int),
                    old(self).pixel(x, y),
                ),
    {
        let ghost before = *self;
        self.draw_in_box(char_rect, background_color, top_left_color, bot_right_color, 2);
        proof {
            Self::lemma_painted_one(&before, self, Paint::Box { top: char_rect.spec_top(), bot: char_rect.spec_bot(), left: char_rect.spec_left(), right: char_rect.spec_right(), space: 6, bg: background_color, tl: top_left_color, br: bot_right_color });
        }
    }

    pub fn draw_rect(&mut self, color: u8, rect: CharRect)
        requires
            old(self).wf(),
            color < PALETTE_SIZE,
        ensures
            final(self).painted(old(self), seq![Paint::Rect { color, top: rect.spec_top(), bot: rect.spec_bot(), left: rect.spec_left(), right: rect.spec_right() }]),
            final(self).keeps(old(self)),
            forall|x: int, y: int|
                on_screen(x, y) ==> #[trigger] final(self).pixel(x, y) == if rect.contains(x / 8, y / 8) {
                    old(self).raw_color(color as int)
                } else {
                    old(self).pixel(x, y)
                },
    {
        let ghost before = *self;
        let pixel_rect = PixelRect::from(rect);
        self.draw_pixel_rect(color, pixel_rect);
        proof {
            Self::lemma_painted_one(&before, self, Paint::Rect { color, top: rect.spec_top(), bot: rect.spec_bot(), left: rect.spec_left(), right: rect.spec_right() });
        }
    }

    pub fn draw_pixel_rect(&mut self, color: u8, rect: PixelRect)
        requires
            old(self).wf(),
            color < PALETTE_SIZE,
        ensures
            final(self).painted(old(self), seq![Paint::Pixels { color, top: rect.spec_top(), bot: rect.spec_bot(), left: rect.spec_left(), right: rect.spec_right() }]),
            final(self).keeps(old(self)),
            forall|x: int, y: int|
                on_screen(x, y) ==> #[trigger] final(self).pixel(x, y) == if rect.contains(x, y) {
                    old(self).raw_color(color as int)
                } else {
                    old(self).pixel(x, y)
                },
    {
        let ghost before = *self;
        let ghost color_index = color;
        let color = self.color_palette.get_raw(color);
        let top = rect.top();
        let bot = rect.bot();
        let left = rect.left();
        let right = rect.right();
        let mut y = top;
        while y <= bot
            invariant
                top <= y <= bot + 1,
                bot < WINDOW_HEIGHT,
                left <= right < WINDOW_WIDTH,
                top == rect.spec_top(),
                bot == rect.spec_bot(),
                left == rect.spec_left(),
                right == rect.spec_right(),
                self.keeps(old(self)),
                forall|i: int, j: int|
                    on_screen(i, j) ==> #[trigger] self.pixel(i, j) == if top <= j < y && left <= i <= right {
                        color
                    } else {
                        old(self).pixel(i, j)
                    },
            decreases bot + 1 - y,
        {
            self.fill_row_segment(y, left, right + 1, color);
            y += 1;
        }
        proof {
            Self::lemma_painted_one(&before, self, Paint::Pixels { color: color_index, top: rect.spec_top(), bot: rect.spec_bot(), left: rect.spec_left(), right: rect.spec_right() });
        }
    }

    /// Draws the 8 x 8 glyph `char_data` into the character cell at `position`: set bits
    /// in `fg_color`, the others in `bg_color`.
    pub fn draw_char(&mut self, char_data: [u8; 8], position: CharPosition, fg_color: u8, bg_color: u8)
        requires
            old(self).wf(),
            fg_color < PALETTE_SIZE,
            bg_color < PALETTE_SIZE,
        ensures
            final(self).painted(old(self), seq![Paint::Glyph { glyph: char_data@, x: position.spec_x(), y: position.spec_y(), fg: fg_color, bg: bg_color }]),
            final(self).keeps(old(self)),
            forall|x: int, y: int|
                on_screen(x, y) ==> #[trigger] final(self).pixel(x, y) == if in_cell(
                    position.spec_x() * 8,
                    position.spec_y() * 8,
                    x,
                    y,
                ) {
                    glyph_pixel(
                        char_data@,
                        position.spec_x() * 8,
                        position.spec_y() * 8,
                        x,
                        y,
                        old(self).raw_color(fg_color as int),
                        old(self).raw_color(bg_color as int),
                    )
                } else {
                    old(self).pixel(x, y)
                },
    {
        let ghost before = *self;
        let ghost (fg_index, bg_index) = (fg_color, bg_color);
        // this is the top_left pixel
        let px = position.x() * FONT_SIZE;
        let py = position.y() * FONT_SIZE;
        let fg_color = self.color_palette.get_raw(fg_color);
        let bg_color = self.color_palette.get_raw(bg_color);
        let mut y: usize = 0;
        while y < 8
            invariant
                y <= 8,
                px + 8 <= WINDOW_WIDTH,
                py + 8 <= WINDOW_HEIGHT,
                px == position.spec_x() * 8,
                py == position.spec_y() * 8,
                self.keeps(old(self)),
                forall|i: int, j: int|
                    on_screen(i, j) ==> #[trigger] self.pixel(i, j) == if px <= i < px + 8 && py <= j
                        < py + y {
                        glyph_pixel(char_data@, px as int, py as int, i, j, fg_color, bg_color)
                    } else {
                        old(self).pixel(i, j)
                    },
            decreases 8 - y,
        {
            let line = char_data[y];
            let mut x: usize = 0;
            while x < 8
                invariant
                    y < 8,
                    x <= 8,
                    line == char_data@[y as int],
                    px + 8 <= WINDOW_WIDTH,
                    py + 8 <= WINDOW_HEIGHT,
                    self.keeps(old(self)),
                    forall|i: int, j: int|
                        on_screen(i, j) ==> #[trigger] self.pixel(i, j) == if px <= i < px + 8 && py
                            <= j < py + y {
                            glyph_pixel(char_data@, px as int, py as int, i, j, fg_color, bg_color)
                        } else if j == py + y && px <= i < px + x {
                            glyph_pixel(char_data@, px as int, py as int, i, j, fg_color, bg_color)
                        } else {
                            old(self).pixel(i, j)
                        },
                decreases 8 - x,
            {
                let color = if (line >> (x as u8)) & 1 == 1 {
                    fg_color
                } else {
                    bg_color
                };
                self.set_pixel(px + x, py + y, color);
                x += 1;
            }
            y += 1;
        }
        proof {
            Self::lemma_painted_one(&before, self, Paint::Glyph { glyph: char_data@, x: position.spec_x(), y: position.spec_y(), fg: fg_index, bg: bg_index });
        }
    }

    /// Writes `string` from `position` on, one character per cell.
    pub fn draw_string(&mut self, string: &str, position: CharPosition, fg_color: u8, bg_color: u8)
        requires
            old(self).wf(),
            fg_color < PALETTE_SIZE,
            bg_color < PALETTE_SIZE,
            is_ascii(string),
            position.spec_x() + string@.len() <= 80,
        ensures
            final(self).painted(old(self), seq![Paint::Text { text: string@, x: position.spec_x(), y: position.spec_y(), fg: fg_color, bg: bg_color }]),
            final(self).keeps(old(self)),
            forall|x: int, y: int|
                on_screen(x, y) ==> #[trigger] final(self).pixel(x, y) == text_pixel(
                    string@,
                    position.spec_x(),
                    position.spec_y(),
                    x,
                    y,
                    old(self).raw_color(fg_color as int),
                    old(self).raw_color(bg_color as int),
                    old(self).pixel(x, y),
                ),
    {
        let ghost before = *self;
        let ghost fg = self.raw_color(fg_color as int);
        let ghost bg = self.raw_color(bg_color as int);
        let len = string.unicode_len();
        let _ = position.x();
        let mut num: usize = 0;
        while num < len
            invariant
                num <= len,
                position.wf(),
                len == string@.len(),
                position.spec_x() + len <= 80,
                is_ascii(string),
                fg_color < PALETTE_SIZE,
                bg_color < PALETTE_SIZE,
                fg == old(self).raw_color(fg_color as int),
                bg == old(self).raw_color(bg_color as int),
                self.keeps(old(self)),
                forall|x: int, y: int|
                    on_screen(x, y) ==> #[trigger] self.pixel(x, y) == text_pixel(
                        string@.take(num as int),
                        position.spec_x(),
                        position.spec_y(),
                        x,
                        y,
                        fg,
                        bg,
                        old(self).pixel(x, y),
                    ),
            decreases len - num,
        {
            let c = string.get_char(num);
            assert('\0' <= string@[num as int] <= '\u{7f}');
            let glyph = match basic_glyph(c) {
                Some(g) => g,
                None => {
                    proof {
                        assert(false);
                    }
                    [0u8; 8]
                },
            };
            let ghost before = *self;
            let cell = position + (num, 0);
            self.draw_char(glyph, cell, fg_color, bg_color);
            num += 1;
            assert forall|x: int, y: int| on_screen(x, y) implies #[trigger] self.pixel(x, y) == text_pixel(
                string@.take(num as int),
                position.spec_x(),
                position.spec_y(),
                x,
                y,
                fg,
                bg,
                old(self).pixel(x, y),
            ) by {
                assert(before.pixel(x, y) == text_pixel(
                    string@.take(num - 1),
                    position.spec_x(),
                    position.spec_y(),
                    x,
                    y,
                    fg,
                    bg,
                    old(self).pixel(x, y),
                ));
            }
        }
        assert(string@.take(len as int) =~= string@);
        proof {
            Self::lemma_painted_one(&before, self, Paint::Text { text: string@, x: position.spec_x(), y: position.spec_y(), fg: fg_color, bg: bg_color });
        }
    }

    /// Writes `string` into the `lenght + 1` cells from `position` on: a longer string is cut
    /// off, a shorter one is followed by cells filled with `bg_color`.
    pub fn draw_string_length(
        &mut self,
        string: &str,
        position: CharPosition,
        lenght: usize,
        fg_color: u8,
        bg_color: u8,
    )
        requires
            old(self).wf(),
            fg_color < PALETTE_SIZE,
            bg_color < PALETTE_SIZE,
            is_ascii(string),
            position.spec_x() + lenght < 80,
        ensures
            final(self).painted(old(self), seq![Paint::TextFit { text: string@, x: position.spec_x(), y: position.spec_y(), width: lenght as int, fg: fg_color, bg: bg_color }]),
            final(self).keeps(old(self)),
            forall|x: int, y: int|
                on_screen(x, y) ==> #[trigger] final(self).pixel(x, y) == padded_text_pixel(
                    string@,
                    lenght as int,
                    position.spec_x(),
                    position.spec_y(),
                    x,
                    y,
                    old(self).raw_color(fg_color as int),
                    old(self).raw_color(bg_color as int),
                    old(self).pixel(x, y),
                ),
    {
        let ghost before = *self;
        let len = string.unicode_len();
        if len > lenght {
            let cut = string.substring_ascii(0, lenght + 1);
            self.draw_string(cut, position, fg_color, bg_color);
        } else {
            self.draw_string(string, position, fg_color, bg_color);
            let ghost mid = *self;
            let x = position.x();
            let y = position.y();
            self.draw_rect(bg_color, CharRect::new(y, y, x + len, x + lenght));
            assert forall|px: int, py: int| on_screen(px, py) implies #[trigger] self.pixel(px, py)
                == padded_text_pixel(
                string@,
                lenght as int,
                position.spec_x(),
                position.spec_y(),
                px,
                py,
                old(self).raw_color(fg_color as int),
                old(self).raw_color(bg_color as int),
                old(self).pixel(px, py),
            ) by {
                assert(mid.pixel(px, py) == text_pixel(
                    string@,
                    position.spec_x(),
                    position.spec_y(),
                    px,
                    py,
                    old(self).raw_color(fg_color as int),
                    old(self).raw_color(bg_color as int),
                    old(self).pixel(px, py),
                ));
            }
        }
        proof {
            Self::lemma_painted_one(&before, self, Paint::TextFit { text: string@, x: position.spec_x(), y: position.spec_y(), width: lenght as int, fg: fg_color, bg: bg_color });
        }
    }

    /// Shows all palette colours in row 5, colour `i` in column `i`.
    pub fn show_colors(&mut self)
        requires
            old(self).wf(),
        ensures
            final(self).keeps(old(self)),
            forall|x: int, y: int|
                on_screen(x, y) ==> #[trigger] final(self).pixel(x, y) == if y / 8 == 5 && x / 8 < 16 {
                    old(self).raw_color(x / 8)
                } else {
                    old(self).pixel(x, y)
                },
    {
        let mut i: u8 = 0;
        while i < PALETTE_SIZE as u8
            invariant
                i <= 16,
                self.keeps(old(self)),
                forall|x: int, y: int|
                    on_screen(x, y) ==> #[trigger] self.pixel(x, y) == if y / 8 == 5 && x / 8 < i {
                        old(self).raw_color(x / 8)
                    } else {
                        old(self).pixel(x, y)
                    },
            decreases 16 - i,
        {
            self.draw_rect(i, CharPosition::new(i as usize, 5).into());
            i += 1;
        }
    }

    /// Fills the whole window with `color`.
    pub fn clear(&mut self, color: u8)
        requires
            old(self).wf(),
            color < PALETTE_SIZE,
        ensures
            final(self).keeps(old(self)),
            forall|x: int, y: int|
                on_screen(x, y) ==> #[trigger] final(self).pixel(x, y) == old(self).raw_color(color as int),
    {
        let color = self.color_palette.get_raw(color);
        let mut i: usize = 0;
        while i < FRAMEBUFFER_LEN
            invariant
                i <= FRAMEBUFFER_LEN,
                self.keeps(old(self)),
                forall|k: int| 0 <= k < i ==> #[trigger] self.framebuffer@[k] == color,
            decreases FRAMEBUFFER_LEN - i,
        {
            self.framebuffer.set(i, color);
            i += 1;
        }
        assert forall|x: int, y: int| on_screen(x, y) implies #[trigger] self.pixel(x, y) == color by {
            assert(0 <= y * 640 + x < FRAMEBUFFER_LEN);
        }
    }
}

} // verus!
