//! An RGB color laid out as the platform packs it into 32 bits.
use vstd::prelude::*;

verus! {

/// An RGB color. As a `u32` it reads, from the low byte up: a reserved
/// byte, blue, green, red.
#[derive(Debug, Copy, Clone, PartialEq, Eq, PartialOrd, Ord, Hash)]
pub struct Color {
    _ph: u8,
    pub blue: u8,
    pub green: u8,
    pub red: u8,
}

/// The four bytes of a `Color`, lowest first.
pub struct ColorModel {
    pub reserved: u8,
    pub blue: u8,
    pub green: u8,
    pub red: u8,
}

impl View for Color {
    type V = ColorModel;

    closed spec fn view(&self) -> ColorModel {
        ColorModel { reserved: self._ph, blue: self.blue, green: self.green, red: self.red }
    }
}

impl Color {
    /// The model of the color with the given channels.
    pub open spec fn new_spec(red: u8, green: u8, blue: u8) -> ColorModel {
        ColorModel { reserved: 0, blue, green, red }
    }

    /// The color with the given channels.
    pub fn new(red: u8, green: u8, blue: u8) -> (r: Color)
        ensures
            r@ == Color::new_spec(red, green, blue),
    {
        Color { _ph: 0, blue, green, red }
    }

    /// The color packed into 32 bits.
    pub fn to_u32(self) -> (r: u32)
        ensures
            r == packed_color(self@.reserved, self@.blue, self@.green, self@.red),
    {
        self._ph as u32 | (self.blue as u32) << 8u32 | (self.green as u32) << 16u32 | (self.red as u32) << 24u32
    }

    /// The color read from the low three bytes of `color`: the reserved
    /// byte, blue and green; red is 0.
    pub fn from_u32(color: u32) -> (r: Color)
        ensures
            r@ == (ColorModel {
                reserved: (color & 0xff) as u8,
                blue: ((color >> 8u32) & 0xff) as u8,
                green: ((color >> 16u32) & 0xff) as u8,
                red: 0,
            }),
    {
        Color {
            _ph: (color & 0xff) as u8,
            blue: ((color >> 8u32) & 0xff) as u8,
            green: ((color >> 16u32) & 0xff) as u8,
            red: 0,
        }
    }
}

/// The 32-bit value of the four bytes, the first lowest.
pub open spec fn packed_color(b0: u8, b1: u8, b2: u8, b3: u8) -> u32 {
    b0 as u32 | (b1 as u32) << 8u32 | (b2 as u32) << 16u32 | (b3 as u32) << 24u32
}

impl From<u32> for Color {
    fn from(color: u32) -> (r: Self)
        ensures
            r@ == (ColorModel {
                reserved: (color & 0xff) as u8,
                blue: ((color >> 8u32) & 0xff) as u8,
                green: ((color >> 16u32) & 0xff) as u8,
                red: 0,
            }),
    {
        Color::from_u32(color)
    }
}

impl vstd::std_specs::convert::FromSpecImpl<u32> for Color {
    open spec fn obeys_from_spec() -> bool {
        false
    }

    closed spec fn from_spec(color: u32) -> Self {
        Color {
            _ph: (color & 0xff) as u8,
            blue: ((color >> 8u32) & 0xff) as u8,
            green: ((color >> 16u32) & 0xff) as u8,
            red: 0,
        }
    }
}

impl From<Color> for u32 {
    fn from(color: Color) -> (r: u32)
        ensures
            r == packed_color(color@.reserved, color@.blue, color@.green, color@.red),
    {
        color.to_u32()
    }
}

impl vstd::std_specs::convert::FromSpecImpl<Color> for u32 {
    open spec fn obeys_from_spec() -> bool {
        true
    }

    open spec fn from_spec(color: Color) -> u32 {
        packed_color(color@.reserved, color@.blue, color@.green, color@.red)
    }
}

} // verus!
