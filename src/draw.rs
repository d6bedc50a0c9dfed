use vstd::prelude::*;

use crate::color::RGBColor;
use crate::handle::Error;

verus! {

/// The value the platform returns for a color it could not read or set.
pub const CLR_INVALID: u32 = 0xFFFF_FFFF;

/// Reads what a drawing call that reports success as a platform boolean returned:
/// zero is a failure that carries `last_error`.
pub fn draw_outcome(ret: i32, last_error: u32) -> (r: Result<(), Error>)
    ensures
        ret == 0 ==> r == Err::<(), Error>(Error { code: last_error }),
        ret != 0 ==> r is Ok,
{
    if crate::convert::booleanize(ret) {
        Ok(())
    } else {
        Err(Error::from_code(last_error))
    }
}

/// Reads what reading a pixel returned: the invalid color means the point lies
/// outside the clipping region, and gives no color.
pub fn pixel_outcome(ret: u32) -> (r: Option<RGBColor>)
    ensures
        ret == CLR_INVALID ==> r is None,
        ret != CLR_INVALID ==> r is Some && r->Some_0.red as u32 == ret % 256
            && r->Some_0.green as u32 == (ret / 256) % 256 && r->Some_0.blue as u32 == (ret
            / 65536) % 256,
{
    if ret == CLR_INVALID {
        None
    } else {
        Some(RGBColor::from_colorref(ret))
    }
}

/// Reads what setting the background color returned: the invalid color is a
/// failure that carries `last_error`; anything else is the color it replaced.
pub fn background_color_outcome(ret: u32, last_error: u32) -> (r: Result<RGBColor, Error>)
    ensures
        ret == CLR_INVALID ==> r == Err::<RGBColor, Error>(Error { code: last_error }),
        ret != CLR_INVALID ==> r is Ok && r->Ok_0.red as u32 == ret % 256 && r->Ok_0.green as u32
            == (ret / 256) % 256 && r->Ok_0.blue as u32 == (ret / 65536) % 256,
{
    if ret == CLR_INVALID {
        Err(Error::from_code(last_error))
    } else {
        Ok(RGBColor::from_colorref(ret))
    }
}

/// Reads what setting the graphics mode returned: zero is a failure that carries
/// `last_error`; anything else is the mode it replaced.
pub fn graphics_mode_outcome(ret: i32, last_error: u32) -> (r: Result<i32, Error>)
    ensures
        ret == 0 ==> r == Err::<i32, Error>(Error { code: last_error }),
        ret != 0 ==> r == Ok::<i32, Error>(ret),
{
    if ret == 0 {
        Err(Error::from_code(last_error))
    } else {
        Ok(ret)
    }
}

/// How a surface maps coordinates: compatibly, or with world transforms.
#[derive(Clone, Copy, PartialEq, Eq, Structural, Debug)]
pub struct GraphicsMode(pub i32);

impl GraphicsMode {
    pub fn compatible() -> (r: GraphicsMode)
        ensures
            r.0 == 1,
    {
        GraphicsMode(1)
    }

    pub fn advanced() -> (r: GraphicsMode)
        ensures
            r.0 == 2,
    {
        GraphicsMode(2)
    }
}

/// A raster operation that combines pen and destination.
#[derive(Clone, Copy, PartialEq, Eq, Structural, Debug)]
pub struct BinaryROP(pub i32);

impl BinaryROP {
    /// The operation whose result table has index `op`; the platform numbers them
    /// from one.
    pub fn from_table_index(op: u8) -> (r: BinaryROP)
        requires
            op < 16,
        ensures
            r.0 == op as i32 + 1,
    {
        BinaryROP(op as i32 + 1)
    }
}

/// A raster operation that combines source, pattern and destination.
#[derive(Clone, Copy, PartialEq, Eq, Structural, Debug)]
pub struct TenaryROP(pub u32);

impl TenaryROP {
    /// The operation with result table `index` and parse-string code `code`, packed
    /// as the platform takes it: the index above the low 16 bits, the code in them.
    pub fn from_parts(index: u8, code: u16) -> (r: TenaryROP)
        ensures
            r.0 == index as u32 * 65536 + code as u32,
    {
        let i = index as u32;
        let c = code as u32;
        let v = (i << 16u32) | c;
        assert(v == i * 65536 + c) by (bit_vector)
            requires
                i < 256,
                c < 65536,
                v == (i << 16u32) | c,
        ;
        TenaryROP(v)
    }

    /// Copies the source.
    pub fn srccopy() -> (r: TenaryROP)
        ensures
            r.0 == 0x00CC_0020,
    {
        TenaryROP::from_parts(0xCC, 0x0020)
    }

    /// Copies the pattern.
    pub fn patcopy() -> (r: TenaryROP)
        ensures
            r.0 == 0x00F0_0021,
    {
        TenaryROP::from_parts(0xF0, 0x0021)
    }

    /// Fills with black.
    pub fn blackness() -> (r: TenaryROP)
        ensures
            r.0 == 0x0000_0042,
    {
        TenaryROP::from_parts(0x00, 0x0042)
    }

    /// Fills with white.
    pub fn whiteness() -> (r: TenaryROP)
        ensures
            r.0 == 0x00FF_0062,
    {
        TenaryROP::from_parts(0xFF, 0x0062)
    }

    /// Combines source and destination with exclusive or.
    pub fn srcinvert() -> (r: TenaryROP)
        ensures
            r.0 == 0x0066_0046,
    {
        TenaryROP::from_parts(0x66, 0x0046)
    }

    /// Combines source and destination with and.
    pub fn srcand() -> (r: TenaryROP)
        ensures
            r.0 == 0x0088_00C6,
    {
        TenaryROP::from_parts(0x88, 0x00C6)
    }

    /// Combines source and destination with or.
    pub fn srcpaint() -> (r: TenaryROP)
        ensures
            r.0 == 0x00EE_0086,
    {
        TenaryROP::from_parts(0xEE, 0x0086)
    }
}

} // verus!
