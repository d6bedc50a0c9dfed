use vstd::prelude::*;

verus! {

/// An opaque token that names a resource owned by the platform.
///
/// The token carries the raw bits of the native handle so that the program around
/// the library can hand it back to the platform; it offers no arithmetic.
#[derive(Clone, Copy, PartialEq, Eq, Structural, Debug, Hash)]
pub struct Handle {
    bits: usize,
}

impl Handle {
    pub closed spec fn spec_bits(self) -> usize {
        self.bits
    }

    /// The handle whose bits are all zero, which the platform uses to signal failure.
    pub fn null() -> (r: Handle)
        ensures
            r.spec_bits() == 0,
    {
        Handle { bits: 0 }
    }

    pub fn from_bits(bits: usize) -> (r: Handle)
        ensures
            r.spec_bits() == bits,
    {
        Handle { bits }
    }

    pub fn bits(&self) -> (r: usize)
        ensures
            r == self.spec_bits(),
    {
        self.bits
    }

    pub open spec fn spec_is_null(self) -> bool {
        self.spec_bits() == 0
    }

    pub fn is_null(&self) -> (r: bool)
        ensures
            r == self.spec_is_null(),
    {
        self.bits == 0
    }
}

/// A failed platform call, with the diagnostic code that the platform reported for it.
#[derive(Clone, Copy, PartialEq, Eq, Structural, Debug)]
pub struct Error {
    pub code: u32,
}

impl Error {
    pub fn from_code(code: u32) -> (r: Error)
        ensures
            r.code == code,
    {
        Error { code }
    }

    pub fn code(&self) -> (r: u32)
        ensures
            r == self.code,
    {
        self.code
    }
}

/// The outcome of a call that creates a resource: the handle when it is not null,
/// else the diagnostic code that the platform reported.
pub open spec fn spec_acquired(h: Handle, last_error: u32) -> Result<Handle, Error> {
    if h.spec_is_null() {
        Err(Error { code: last_error })
    } else {
        Ok(h)
    }
}

/// Reads the result of an acquisition: a null handle is a failure carrying
/// `last_error`, any other handle is the acquired resource.
pub fn ok_or_last_error(h: Handle, last_error: u32) -> (r: Result<Handle, Error>)
    ensures
        r == spec_acquired(h, last_error),
{
    if h.is_null() {
        Err(Error::from_code(last_error))
    } else {
        Ok(h)
    }
}

/// Reads the platform's diagnostic code after a call: a non-zero code is a failure
/// that carries it; a zero code gives `value`.
pub fn maybe_last_error(value: usize, last_error: u32) -> (r: Result<usize, Error>)
    ensures
        last_error != 0 ==> r == Err::<usize, Error>(Error { code: last_error }),
        last_error == 0 ==> r == Ok::<usize, Error>(value),
{
    if last_error != 0 {
        Err(Error::from_code(last_error))
    } else {
        Ok(value)
    }
}

/// Reads the result of a call whose zero result is ambiguous (reading a window's
/// styles): a non-zero result is the value; a zero result is a failure when the
/// platform reported a non-zero diagnostic code, else it is zero.
pub fn zero_or_last_error(value: usize, last_error: u32) -> (r: Result<usize, Error>)
    ensures
        value != 0 ==> r == Ok::<usize, Error>(value),
        value == 0 && last_error != 0 ==> r == Err::<usize, Error>(Error { code: last_error }),
        value == 0 && last_error == 0 ==> r == Ok::<usize, Error>(0),
{
    if value == 0 {
        maybe_last_error(0, last_error)
    } else {
        Ok(value)
    }
}

/// A failure reported by a common dialog, with its extended error code.
#[derive(Clone, Copy, PartialEq, Eq, Structural, Debug)]
pub struct CommDlgErr(pub u32);

} // verus!
