use vstd::prelude::*;

verus! {

/// A color given by its red, green and blue intensities.
#[derive(Clone, Copy, PartialEq, Eq, Structural, Debug)]
pub struct RGBColor {
    pub red: u8,
    pub green: u8,
    pub blue: u8,
}

/// The platform's packed form of a color: red in the low byte, then green, then blue.
pub open spec fn spec_colorref(red: u8, green: u8, blue: u8) -> u32 {
    (red as u32) | ((green as u32) << 8u32) | ((blue as u32) << 16u32)
}

impl RGBColor {
    pub fn new(red: u8, green: u8, blue: u8) -> (r: RGBColor)
        ensures
            r == (RGBColor { red, green, blue }),
    {
        RGBColor { red, green, blue }
    }

    pub open spec fn spec_black() -> RGBColor {
        RGBColor { red: 0, green: 0, blue: 0 }
    }

    pub fn black() -> (r: RGBColor)
        ensures
            r == Self::spec_black(),
    {
        RGBColor { red: 0, green: 0, blue: 0 }
    }

    pub fn white() -> (r: RGBColor)
        ensures
            r == (RGBColor { red: 255, green: 255, blue: 255 }),
    {
        RGBColor { red: 255, green: 255, blue: 255 }
    }

    /// The packed form that the platform takes.
    pub fn colorref(&self) -> (r: u32)
        ensures
            r == spec_colorref(self.red, self.green, self.blue),
            r == self.red as u32 + 256 * (self.green as u32) + 65536 * (self.blue as u32),
    {
        let (red, green, blue) = (self.red as u32, self.green as u32, self.blue as u32);
        let r = red | (green << 8u32) | (blue << 16u32);
        assert(r == red + 256 * green + 65536 * blue) by (bit_vector)
            requires
                red < 256,
                green < 256,
                blue < 256,
                r == red | (green << 8u32) | (blue << 16u32),
        ;
        r
    }

    /// The color that a packed value stands for; bits above the blue byte are ignored.
    pub fn from_colorref(v: u32) -> (r: RGBColor)
        ensures
            r.red as u32 == v % 256,
            r.green as u32 == (v / 256) % 256,
            r.blue as u32 == (v / 65536) % 256,
    {
        RGBColor { red: (v % 256) as u8, green: ((v / 256) % 256) as u8, blue: ((v / 65536) % 256) as u8 }
    }
}

} // verus!
