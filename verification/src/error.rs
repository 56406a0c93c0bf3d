use vstd::prelude::*;
use vstd::std_specs::convert::FromSpecImpl;

verus! {

/// VRT Errors
#[derive(Clone, Copy, Debug, Eq, PartialEq)]
pub enum Error {
    /// Buffer is full
    BufferFull,
    /// Invalid TSI type.
    Tsi(u8),
    /// Invalid TSF type.
    Tsf(u8),
    /// Invalid packet type.
    PktType(u8),
    /// Conversion error
    TryFromIntError(core::num::TryFromIntError),
    /// The input ends too early: so many more bytes are needed.
    Incomplete(usize),
}

impl FromSpecImpl<core::num::TryFromIntError> for Error {
    open spec fn obeys_from_spec() -> bool {
        true
    }

    open spec fn from_spec(e: core::num::TryFromIntError) -> Error {
        Error::TryFromIntError(e)
    }
}

impl From<core::num::TryFromIntError> for Error {
    /// The error of this library that holds a failed conversion.
    fn from(e: core::num::TryFromIntError) -> (r: Error) {
        Error::TryFromIntError(e)
    }
}

} // verus!
