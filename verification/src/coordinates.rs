//! Screen geometry: the window is a grid of 80 x 50 characters, each of them
//! an 8 x 8 square of pixels. All rectangles include their borders.
use std::ops::{Add, RangeInclusive};
use vstd::prelude::*;
use vstd::std_specs::convert::FromSpecImpl;
use vstd::std_specs::ops::AddSpecImpl;

verus! {

/// font size in pixel. font is a square
pub const FONT_SIZE: usize = 8;

/// window width in characters
pub const WINDOW_WIDTH_CHARS: usize = 80;

/// window height in characters
pub const WINDOW_HEIGHT_CHARS: usize = 50;

/// window width in pixel
pub const WINDOW_WIDTH: usize = 640;

/// window height in pixel
pub const WINDOW_HEIGHT: usize = 400;

/// bytes per pixel, mainly used to setup GPU as otherwise a u32 is used for one pixel
pub const PIXEL_SIZE: usize = 4;

/// bytes per pixel row of the window
pub const LINE_SIZE: usize = 2560;

/// The pixel coordinate where character coordinate `position` starts.
pub fn char_into_screen_pos(position: u8) -> (r: usize)
    ensures
        r == position * FONT_SIZE,
{
    position as usize * FONT_SIZE
}

/// The offset of the first byte of pixel (`x`, `y`) in a frame of 4 byte pixels, row after
/// row.
pub fn screen_into_byte_pos(position: (usize, usize)) -> (r: usize)
    requires
        position.1 * LINE_SIZE + position.0 * PIXEL_SIZE <= usize::MAX,
    ensures
        r == position.1 * LINE_SIZE + position.0 * PIXEL_SIZE,
{
    (position.1 * LINE_SIZE) + (position.0 * PIXEL_SIZE)
}

/// A rectangle of characters inside the window. All borders are included.
#[derive(Debug, Clone, Copy)]
pub struct CharRect {
    top: usize,
    bot: usize,
    left: usize,
    right: usize,
}

impl CharRect {
    #[verifier::type_invariant]
    spec fn inv(self) -> bool {
        &&& self.top <= self.bot
        &&& self.left <= self.right
        &&& self.bot < WINDOW_HEIGHT_CHARS
        &&& self.right < WINDOW_WIDTH_CHARS
    }

    pub closed spec fn spec_top(self) -> int {
        self.top as int
    }

    pub closed spec fn spec_bot(self) -> int {
        self.bot as int
    }

    pub closed spec fn spec_left(self) -> int {
        self.left as int
    }

    pub closed spec fn spec_right(self) -> int {
        self.right as int
    }

    /// What every `CharRect` satisfies: it is not empty and lies inside the window.
    pub open spec fn wf(self) -> bool {
        &&& 0 <= self.spec_top() <= self.spec_bot() < WINDOW_HEIGHT_CHARS
        &&& 0 <= self.spec_left() <= self.spec_right() < WINDOW_WIDTH_CHARS
    }

    /// Whether the character cell in column `x` and row `y` lies inside the rectangle.
    pub open spec fn contains(self, x: int, y: int) -> bool {
        self.spec_top() <= y <= self.spec_bot() && self.spec_left() <= x <= self.spec_right()
    }

    /// Row 11 is reserved for the page title. The page shouldn't draw on it.
    pub fn page_area() -> (r: Self)
        ensures
            r.spec_top() == 12,
            r.spec_bot() == WINDOW_HEIGHT_CHARS - 1,
            r.spec_left() == 0,
            r.spec_right() == WINDOW_WIDTH_CHARS - 1,
    {
        Self::new(12, WINDOW_HEIGHT_CHARS - 1, 0, WINDOW_WIDTH_CHARS - 1)
    }

    /// The rows that belong to the header.
    pub fn header_area() -> (r: Self)
        ensures
            r.spec_top() == 0,
            r.spec_bot() == 10,
            r.spec_left() == 0,
            r.spec_right() == WINDOW_WIDTH_CHARS - 1,
    {
        Self::new(0, 10, 0, WINDOW_WIDTH_CHARS - 1)
    }

    pub fn new(top: usize, bot: usize, left: usize, right: usize) -> (r: Self)
        requires
            top <= bot,
            left <= right,
            bot < WINDOW_HEIGHT_CHARS,
            right < WINDOW_WIDTH_CHARS,
        ensures
            r.spec_top() == top,
            r.spec_bot() == bot,
            r.spec_left() == left,
            r.spec_right() == right,
    {
        Self { top, bot, left, right }
    }

    pub fn top(self) -> (r: usize)
        ensures
            r == self.spec_top(),
            self.wf(),
    {
        proof {
            use_type_invariant(&self);
        }
        self.top
    }

    pub fn bot(self) -> (r: usize)
        ensures
            r == self.spec_bot(),
            self.wf(),
    {
        proof {
            use_type_invariant(&self);
        }
        self.bot
    }

    pub fn right(self) -> (r: usize)
        ensures
            r == self.spec_right(),
            self.wf(),
    {
        proof {
            use_type_invariant(&self);
        }
        self.right
    }

    pub fn left(self) -> (r: usize)
        ensures
            r == self.spec_left(),
            self.wf(),
    {
        proof {
            use_type_invariant(&self);
        }
        self.left
    }

    pub fn top_left(self) -> (r: CharPosition)
        ensures
            r.spec_x() == self.spec_left(),
            r.spec_y() == self.spec_top(),
            self.wf(),
    {
        proof {
            use_type_invariant(&self);
        }
        CharPosition { x: self.left, y: self.top }
    }

    pub fn width(self) -> (r: usize)
        ensures
            r == self.spec_right() - self.spec_left(),
            self.wf(),
    {
        proof {
            use_type_invariant(&self);
        }
        self.right - self.left
    }

    pub fn height(self) -> (r: usize)
        ensures
            r == self.spec_bot() - self.spec_top(),
            self.wf(),
    {
        proof {
            use_type_invariant(&self);
        }
        self.bot - self.top
    }
}

/// The rectangle made of the single character cell at `value`.
impl From<CharPosition> for CharRect {
    fn from(value: CharPosition) -> (r: Self)
        ensures
            r.spec_top() == value.spec_y(),
            r.spec_bot() == value.spec_y(),
            r.spec_left() == value.spec_x(),
            r.spec_right() == value.spec_x(),
    {
        proof {
            use_type_invariant(&value);
        }
        Self::new(value.y, value.y, value.x, value.x)
    }
}

impl FromSpecImpl<CharPosition> for CharRect {
    open spec fn obeys_from_spec() -> bool {
        false
    }

    open spec fn from_spec(v: CharPosition) -> Self {
        arbitrary()
    }
}

/// A rectangle of pixels inside the window. All borders are included.
#[derive(Debug, Clone, Copy)]
pub struct PixelRect {
    top: usize,
    bot: usize,
    right: usize,
    left: usize,
}

impl PixelRect {
    #[verifier::type_invariant]
    spec fn inv(self) -> bool {
        &&& self.top <= self.bot
        &&& self.left <= self.right
        &&& self.bot < WINDOW_HEIGHT
        &&& self.right < WINDOW_WIDTH
    }

    pub closed spec fn spec_top(self) -> int {
        self.top as int
    }

    pub closed spec fn spec_bot(self) -> int {
        self.bot as int
    }

    pub closed spec fn spec_left(self) -> int {
        self.left as int
    }

    pub closed spec fn spec_right(self) -> int {
        self.right as int
    }

    /// What every `PixelRect` satisfies: it is not empty and lies inside the window.
    pub open spec fn wf(self) -> bool {
        &&& 0 <= self.spec_top() <= self.spec_bot() < WINDOW_HEIGHT
        &&& 0 <= self.spec_left() <= self.spec_right() < WINDOW_WIDTH
    }

    /// Whether the pixel in column `x` and row `y` lies inside the rectangle.
    pub open spec fn contains(self, x: int, y: int) -> bool {
        self.spec_top() <= y <= self.spec_bot() && self.spec_left() <= x <= self.spec_right()
    }

    pub fn new(top: usize, bot: usize, right: usize, left: usize) -> (r: Self)
        requires
            top <= bot,
            left <= right,
            bot < WINDOW_HEIGHT,
            right < WINDOW_WIDTH,
        ensures
            r.spec_top() == top,
            r.spec_bot() == bot,
            r.spec_left() == left,
            r.spec_right() == right,
    {
        Self { top, bot, right, left }
    }

    pub fn vertical_range(&self) -> (r: RangeInclusive<usize>)
        ensures
            r@.start == self.spec_top(),
            r@.end == self.spec_bot(),
            !r@.exhausted,
    {
        RangeInclusive::new(self.top, self.bot)
    }

    pub fn horizontal_range(&self) -> (r: RangeInclusive<usize>)
        ensures
            r@.start == self.spec_left(),
            r@.end == self.spec_right(),
            !r@.exhausted,
    {
        RangeInclusive::new(self.left, self.right)
    }

    pub fn top(&self) -> (r: usize)
        ensures
            r == self.spec_top(),
            self.wf(),
    {
        proof {
            use_type_invariant(self);
        }
        self.top
    }

    pub fn bot(&self) -> (r: usize)
        ensures
            r == self.spec_bot(),
            self.wf(),
    {
        proof {
            use_type_invariant(self);
        }
        self.bot
    }

    pub fn right(&self) -> (r: usize)
        ensures
            r == self.spec_right(),
            self.wf(),
    {
        proof {
            use_type_invariant(self);
        }
        self.right
    }

    pub fn left(&self) -> (r: usize)
        ensures
            r == self.spec_left(),
            self.wf(),
    {
        proof {
            use_type_invariant(self);
        }
        self.left
    }
}

/// The pixels covered by the characters of `value`.
impl From<CharRect> for PixelRect {
    fn from(value: CharRect) -> (r: Self)
        ensures
            r.spec_top() == value.spec_top() * 8,
            r.spec_bot() == value.spec_bot() * 8 + 7,
            r.spec_left() == value.spec_left() * 8,
            r.spec_right() == value.spec_right() * 8 + 7,
    {
        proof {
            use_type_invariant(&value);
        }
        Self::new(
            value.top * FONT_SIZE,
            (value.bot * FONT_SIZE) + FONT_SIZE - 1,
            (value.right * FONT_SIZE) + FONT_SIZE - 1,
            value.left * FONT_SIZE,
        )
    }
}

impl FromSpecImpl<CharRect> for PixelRect {
    open spec fn obeys_from_spec() -> bool {
        false
    }

    open spec fn from_spec(v: CharRect) -> Self {
        arbitrary()
    }
}

/// The pixels of the character cell at `value`.
impl From<CharPosition> for PixelRect {
    fn from(value: CharPosition) -> (r: Self)
        ensures
            r.spec_top() == value.spec_y() * 8,
            r.spec_bot() == value.spec_y() * 8 + 7,
            r.spec_left() == value.spec_x() * 8,
            r.spec_right() == value.spec_x() * 8 + 7,
    {
        Self::from(CharRect::from(value))
    }
}

impl FromSpecImpl<CharPosition> for PixelRect {
    open spec fn obeys_from_spec() -> bool {
        false
    }

    open spec fn from_spec(v: CharPosition) -> Self {
        arbitrary()
    }
}

/// The position of one character cell inside the window.
#[derive(Debug, Clone, Copy)]
pub struct CharPosition {
    x: usize,
    y: usize,
}

impl CharPosition {
    #[verifier::type_invariant]
    spec fn inv(self) -> bool {
        &&& self.y < WINDOW_HEIGHT_CHARS
        &&& self.x < WINDOW_WIDTH_CHARS
    }

    pub closed spec fn spec_x(self) -> int {
        self.x as int
    }

    pub closed spec fn spec_y(self) -> int {
        self.y as int
    }

    /// What every `CharPosition` satisfies: it lies inside the window.
    pub open spec fn wf(self) -> bool {
        &&& 0 <= self.spec_x() < WINDOW_WIDTH_CHARS
        &&& 0 <= self.spec_y() < WINDOW_HEIGHT_CHARS
    }

    pub fn new(x: usize, y: usize) -> (r: Self)
        requires
            y < WINDOW_HEIGHT_CHARS,
            x < WINDOW_WIDTH_CHARS,
        ensures
            r.spec_x() == x,
            r.spec_y() == y,
    {
        Self { x, y }
    }

    pub fn x(&self) -> (r: usize)
        ensures
            r == self.spec_x(),
            self.wf(),
    {
        proof {
            use_type_invariant(self);
        }
        self.x
    }

    pub fn y(&self) -> (r: usize)
        ensures
            r == self.spec_y(),
            self.wf(),
    {
        proof {
            use_type_invariant(self);
        }
        self.y
    }
}

impl Add for CharPosition {
    type Output = Self;

    fn add(self, rhs: Self) -> (r: Self::Output)
        ensures
            r.spec_x() == self.spec_x() + rhs.spec_x(),
            r.spec_y() == self.spec_y() + rhs.spec_y(),
    {
        proof {
            use_type_invariant(&self);
            use_type_invariant(&rhs);
        }
        Self::new(self.x + rhs.x, self.y + rhs.y)
    }
}

impl AddSpecImpl for CharPosition {
    open spec fn obeys_add_spec() -> bool {
        false
    }

    open spec fn add_req(self, rhs: Self) -> bool {
        &&& self.spec_x() + rhs.spec_x() < WINDOW_WIDTH_CHARS
        &&& self.spec_y() + rhs.spec_y() < WINDOW_HEIGHT_CHARS
    }

    open spec fn add_spec(self, rhs: Self) -> Self {
        arbitrary()
    }
}

impl Add<(usize, usize)> for CharPosition {
    type Output = Self;

    fn add(self, rhs: (usize, usize)) -> (r: Self::Output)
        ensures
            r.spec_x() == self.spec_x() + rhs.0,
            r.spec_y() == self.spec_y() + rhs.1,
    {
        proof {
            use_type_invariant(&self);
        }
        Self::new(self.x + rhs.0, self.y + rhs.1)
    }
}

impl AddSpecImpl<(usize, usize)> for CharPosition {
    open spec fn obeys_add_spec() -> bool {
        false
    }

    open spec fn add_req(self, rhs: (usize, usize)) -> bool {
        &&& self.spec_x() + rhs.0 < WINDOW_WIDTH_CHARS
        &&& self.spec_y() + rhs.1 < WINDOW_HEIGHT_CHARS
    }

    open spec fn add_spec(self, rhs: (usize, usize)) -> Self {
        arbitrary()
    }
}

} // verus!
