use vstd::prelude::*;

verus! {

/// Reads a platform boolean: any non-zero value is true.
pub fn booleanize(v: i32) -> (r: bool)
    ensures
        r == (v != 0),
{
    v != 0
}

/// Writes a platform boolean: one for true, zero for false.
pub fn revert_booleanize(v: bool) -> (r: i32)
    ensures
        r == (if v { 1i32 } else { 0i32 }),
{
    if v {
        1
    } else {
        0
    }
}

pub open spec fn clamp(v: int, lo: int, hi: int) -> int {
    if v < lo {
        lo
    } else if v > hi {
        hi
    } else {
        v
    }
}

pub fn clamp_usize_to_positive_isize(v: usize) -> (r: isize)
    ensures
        r as int == clamp(v as int, 0, isize::MAX as int),
{
    if v > isize::MAX as usize {
        isize::MAX
    } else {
        v as isize
    }
}

pub fn clamp_isize_to_i32(v: isize) -> (r: i32)
    ensures
        r as int == clamp(v as int, i32::MIN as int, i32::MAX as int),
{
    if v < i32::MIN as isize {
        i32::MIN
    } else if v > i32::MAX as isize {
        i32::MAX
    } else {
        v as i32
    }
}

pub fn clamp_i32_to_positive_i32(v: i32) -> (r: i32)
    ensures
        r as int == clamp(v as int, 0, i32::MAX as int),
{
    if v < 0 {
        0
    } else {
        v
    }
}

pub fn clamp_usize_to_positive_i32(v: usize) -> (r: i32)
    ensures
        r as int == clamp(v as int, 0, i32::MAX as int),
{
    if v > i32::MAX as usize {
        i32::MAX
    } else {
        v as i32
    }
}

pub fn clamp_isize_to_positive_i32(v: isize) -> (r: i32)
    ensures
        r as int == clamp(v as int, 0, i32::MAX as int),
{
    if v < 0 {
        0
    } else if v > i32::MAX as isize {
        i32::MAX
    } else {
        v as i32
    }
}

/// `a + b`, held to the range of `isize`.
pub fn saturating_add_isize(a: isize, b: isize) -> (r: isize)
    ensures
        r as int == clamp(a + b, isize::MIN as int, isize::MAX as int),
{
    if b >= 0 {
        if a > isize::MAX - b {
            isize::MAX
        } else {
            a + b
        }
    } else {
        if a < isize::MIN - b {
            isize::MIN
        } else {
            a + b
        }
    }
}

/// `a - b`, held to the range of `isize`.
pub fn saturating_sub_isize(a: isize, b: isize) -> (r: isize)
    ensures
        r as int == clamp(a - b, isize::MIN as int, isize::MAX as int),
{
    if b >= 0 {
        if a < isize::MIN + b {
            isize::MIN
        } else {
            a - b
        }
    } else {
        if a > isize::MAX + b {
            isize::MAX
        } else {
            a - b
        }
    }
}

} // verus!
