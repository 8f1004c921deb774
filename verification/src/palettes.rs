//! Colour palettes and the pixel formats they are turned into.
use vstd::prelude::*;
use vstd::std_specs::convert::FromSpecImpl;

verus! {

pub const PALETTE_SIZE: usize = 16;

pub type RGB8 = [u8; 3];

/// The value of a `ZRGB` pixel: zero, red, green, blue, from the most significant byte down.
pub open spec fn zrgb_value(c: RGB8) -> int {
    c[0] * 0x1_0000 + c[1] * 0x100 + c[2]
}

/// The value of a `RGB10A2` pixel: three 10 bit channels, red in the lowest bits,
/// each channel the 8 bit value scaled by 4, alpha zero.
pub open spec fn rgb10a2_value(c: RGB8) -> int {
    c[2] * 4 * 0x10_0000 + c[1] * 4 * 0x400 + c[0] * 4
}

/// The value of a `RGBA8` pixel read as a little endian number: red in the lowest byte.
pub open spec fn rgba8_value(c: RGB8) -> int {
    c[2] * 0x1_0000 + c[1] * 0x100 + c[0]
}

/// See https://docs.rs/softbuffer/latest/softbuffer/struct.Buffer.html#data-representation
pub struct ZRGB(u32);

impl ZRGB {
    pub closed spec fn spec_value(self) -> u32 {
        self.0
    }

    fn from_rgb8(value: RGB8) -> (r: Self)
        ensures
            r.spec_value() == zrgb_value(value),
    {
        let red = value[0] as u32;
        let green = value[1] as u32;
        let blue = value[2] as u32;
        let v = (red << 16u32) | (green << 8u32) | blue;
        assert(v == red * 0x1_0000 + green * 0x100 + blue) by (bit_vector)
            requires
                red < 256,
                green < 256,
                blue < 256,
                v == (red << 16u32) | (green << 8u32) | blue,
        ;
        Self(v)
    }

    /// The packed pixel value.
    pub fn raw(&self) -> (r: u32)
        ensures
            r == self.spec_value(),
    {
        self.0
    }
}

impl From<RGB8> for ZRGB {
    fn from(value: RGB8) -> (r: Self)
        ensures
            r.spec_value() == zrgb_value(value),
    {
        Self::from_rgb8(value)
    }
}

impl FromSpecImpl<RGB8> for ZRGB {
    open spec fn obeys_from_spec() -> bool {
        false
    }

    open spec fn from_spec(v: RGB8) -> Self {
        arbitrary()
    }
}

/// see: https://developer.apple.com/documentation/metal/mtlpixelformat/rgb10a2unorm
#[derive(Debug, Clone, Copy)]
pub struct RGB10A2(pub u32);

impl RGB10A2 {
    fn from_rgb8(value: RGB8) -> (r: Self)
        ensures
            r.0 == rgb10a2_value(value),
    {
        let mut storage: u32 = 0;

        let b4 = (value[2] as u32) * 4;
        let blue: u32 = b4 << 20u32;
        storage |= blue;

        let g4 = (value[1] as u32) * 4;
        let green: u32 = g4 << 10u32;
        storage |= green;

        let red: u32 = (value[0] as u32) * 4;
        storage |= red;

        assert(storage == b4 * 0x10_0000 + g4 * 0x400 + red) by (bit_vector)
            requires
                red < 1024,
                g4 < 1024,
                b4 < 1024,
                storage == ((0u32 | (b4 << 20u32)) | (g4 << 10u32)) | red,
        ;
        Self(storage)
    }
}

impl From<RGB8> for RGB10A2 {
    fn from(value: RGB8) -> (r: Self)
        ensures
            r.0 == rgb10a2_value(value),
    {
        Self::from_rgb8(value)
    }
}

impl FromSpecImpl<RGB8> for RGB10A2 {
    open spec fn obeys_from_spec() -> bool {
        false
    }

    open spec fn from_spec(v: RGB8) -> Self {
        arbitrary()
    }
}

#[derive(Debug, Clone, Copy)]
pub struct RGBA8(pub u32);

impl From<RGB8> for RGBA8 {
    fn from(value: RGB8) -> (r: Self)
        ensures
            r.0 == rgba8_value(value),
    {
        let red = value[0] as u32;
        let green = value[1] as u32;
        let blue = value[2] as u32;
        let v = red | (green << 8u32) | (blue << 16u32);
        assert(v == blue * 0x1_0000 + green * 0x100 + red) by (bit_vector)
            requires
                red < 256,
                green < 256,
                blue < 256,
                v == red | (green << 8u32) | (blue << 16u32),
        ;
        Self(v)
    }
}

impl FromSpecImpl<RGB8> for RGBA8 {
    open spec fn obeys_from_spec() -> bool {
        false
    }

    open spec fn from_spec(v: RGB8) -> Self {
        arbitrary()
    }
}

/// A set of 16 colours, addressed by their index.
pub struct Palette<Color>(pub [Color; PALETTE_SIZE]);

/// The colours of the camouflage palette, as 8 bit channels.
pub open spec fn camouflage_colors() -> Seq<RGB8> {
    seq![
        [0u8, 0u8, 0u8],
        [124u8, 88u8, 68u8],
        [180u8, 148u8, 120u8],
        [232u8, 232u8, 200u8],
        [176u8, 0u8, 84u8],
        [252u8, 252u8, 84u8],
        [68u8, 152u8, 84u8],
        [76u8, 12u8, 24u8],
        [32u8, 84u8, 0u8],
        [24u8, 116u8, 44u8],
        [56u8, 156u8, 116u8],
        [220u8, 232u8, 224u8],
        [160u8, 160u8, 160u8],
        [140u8, 20u8, 84u8],
        [88u8, 64u8, 60u8],
        [52u8, 48u8, 44u8],
    ]
}

// only needed, because its easier to set u8 color values than u10 by hand, so they are stored
// as u8 and converted to RGB10A2
impl Palette<RGB8> {
    /// The default palette of the tracker.
    pub fn camouflage() -> (r: Palette<RGB8>)
        ensures
            r.0@ == camouflage_colors(),
    {
        let r = Palette(
            [
                [0, 0, 0],
                [124, 88, 68],
                [180, 148, 120],
                [232, 232, 200],
                [176, 0, 84],
                [252, 252, 84],
                [68, 152, 84],
                [76, 12, 24],
                [32, 84, 0],
                [24, 116, 44],
                [56, 156, 116],
                [220, 232, 224],
                [160, 160, 160],
                [140, 20, 84],
                [88, 64, 60],
                [52, 48, 44],
            ],
        );
        assert(r.0@ =~= camouflage_colors());
        r
    }
}

impl From<Palette<RGB8>> for Palette<RGB10A2> {
    fn from(value: Palette<RGB8>) -> (r: Self)
        ensures
            forall|i: int| 0 <= i < PALETTE_SIZE ==> (#[trigger] r.0@[i]).0 == rgb10a2_value(value.0@[i]),
    {
        let mut colors = [RGB10A2(0); PALETTE_SIZE];
        let mut i: usize = 0;
        while i < PALETTE_SIZE
            invariant
                i <= PALETTE_SIZE,
                forall|j: int| 0 <= j < i ==> (#[trigger] colors@[j]).0 == rgb10a2_value(value.0@[j]),
            decreases PALETTE_SIZE - i,
        {
            colors[i] = RGB10A2::from_rgb8(value.0[i]);
            i += 1;
        }
        Self(colors)
    }
}

impl FromSpecImpl<Palette<RGB8>> for Palette<RGB10A2> {
    open spec fn obeys_from_spec() -> bool {
        false
    }

    open spec fn from_spec(v: Palette<RGB8>) -> Self {
        arbitrary()
    }
}

impl From<Palette<RGB8>> for Palette<ZRGB> {
    fn from(value: Palette<RGB8>) -> (r: Self)
        ensures
            forall|i: int|
                0 <= i < PALETTE_SIZE ==> (#[trigger] r.0@[i]).spec_value() == zrgb_value(value.0@[i]),
    {
        let mut colors = [
            ZRGB(0), ZRGB(0), ZRGB(0), ZRGB(0), ZRGB(0), ZRGB(0), ZRGB(0), ZRGB(0),
            ZRGB(0), ZRGB(0), ZRGB(0), ZRGB(0), ZRGB(0), ZRGB(0), ZRGB(0), ZRGB(0),
        ];
        let mut i: usize = 0;
        while i < PALETTE_SIZE
            invariant
                i <= PALETTE_SIZE,
                forall|j: int|
                    0 <= j < i ==> (#[trigger] colors@[j]).spec_value() == zrgb_value(value.0@[j]),
            decreases PALETTE_SIZE - i,
        {
            colors[i] = ZRGB::from_rgb8(value.0[i]);
            i += 1;
        }
        Self(colors)
    }
}

impl FromSpecImpl<Palette<RGB8>> for Palette<ZRGB> {
    open spec fn obeys_from_spec() -> bool {
        false
    }

    open spec fn from_spec(v: Palette<RGB8>) -> Self {
        arbitrary()
    }
}

impl From<Palette<RGB8>> for Palette<RGBA8> {
    fn from(value: Palette<RGB8>) -> (r: Self)
        ensures
            forall|i: int| 0 <= i < PALETTE_SIZE ==> (#[trigger] r.0@[i]).0 == rgba8_value(value.0@[i]),
    {
        let mut colors = [RGBA8(0); PALETTE_SIZE];
        let mut i: usize = 0;
        while i < PALETTE_SIZE
            invariant
                i <= PALETTE_SIZE,
                forall|j: int| 0 <= j < i ==> (#[trigger] colors@[j]).0 == rgba8_value(value.0@[j]),
            decreases PALETTE_SIZE - i,
        {
            colors[i] = RGBA8::from(value.0[i]);
            i += 1;
        }
        Self(colors)
    }
}

impl FromSpecImpl<Palette<RGB8>> for Palette<RGBA8> {
    open spec fn obeys_from_spec() -> bool {
        false
    }

    open spec fn from_spec(v: Palette<RGB8>) -> Self {
        arbitrary()
    }
}

impl Palette<ZRGB> {
    pub fn get_raw(&self, index: u8) -> (r: u32)
        requires
            index < PALETTE_SIZE,
        ensures
            r == self.0@[index as int].spec_value(),
    {
        self.0[index as usize].raw()
    }
}

impl Palette<RGB10A2> {
    pub fn get_raw(&self, index: u8) -> (r: u32)
        requires
            index < PALETTE_SIZE,
        ensures
            r == self.0@[index as int].0,
    {
        self.0[index as usize].0
    }
}

} // verus!
