use vstd::prelude::*;
use vstd::std_specs::convert::{FromSpec, FromSpecImpl, TryFromSpec, TryFromSpecImpl};

use crate::Error;

verus! {

/// Fractional-Seconds Timestamp Type
#[derive(Clone, Copy, Debug, Eq, PartialEq, Structural)]
pub enum Tsf {
    /// No fractional-seconds timestamp field.
    Absent,
    /// Fractional-seconds timestamp field is a Sample Count Timestamp.
    SampleCount,
    /// Fractional-seconds timestamp field is a Real Time (Picoseconds) Timestamp.
    RealTime,
    /// Fractional-seconds timestamp field is a Free Running Count Timestamp.
    FreeRunning,
}

impl Tsf {
    /// The two-bit code that stands for this kind in a header.
    pub open spec fn code(self) -> u8 {
        match self {
            Tsf::Absent => 0,
            Tsf::SampleCount => 1,
            Tsf::RealTime => 2,
            Tsf::FreeRunning => 3,
        }
    }

    /// The kind that `code` stands for. The codes 0 to 3 are in use; any
    /// other is refused and handed back in the error.
    pub open spec fn from_code(code: u8) -> Result<Tsf, Error> {
        if code == 0 {
            Ok(Tsf::Absent)
        } else if code == 1 {
            Ok(Tsf::SampleCount)
        } else if code == 2 {
            Ok(Tsf::RealTime)
        } else if code == 3 {
            Ok(Tsf::FreeRunning)
        } else {
            Err(Error::Tsf(code))
        }
    }

    /// Tells whether a packet with this kind carries a fractional-seconds
    /// timestamp.
    pub fn is_present(self) -> (r: bool)
        ensures
            r == (self != Tsf::Absent),
    {
        match self {
            Tsf::Absent => false,
            _ => true,
        }
    }

    /// Every kind is found again from its code.
    pub proof fn code_round_trip(self)
        ensures
            self.code() <= 3,
            Tsf::from_code(self.code()) == Ok::<Tsf, Error>(self),
            <Tsf as TryFromSpec<u8>>::try_from_spec(<u8 as FromSpec<Tsf>>::from_spec(self)) == Ok::<
                Tsf,
                Error,
            >(self),
    {
    }

    /// Every code is either in use, and then the kind it stands for has that
    /// code, or refused with an error that carries the code.
    pub proof fn from_code_total(code: u8)
        ensures
            code <= 3 ==> Tsf::from_code(code) is Ok && Tsf::from_code(code).unwrap().code() == code,
            code > 3 ==> Tsf::from_code(code) == Err::<Tsf, Error>(Error::Tsf(code)),
    {
    }
}

impl Default for Tsf {
    /// No fractional-seconds timestamp.
    fn default() -> (r: Tsf)
        ensures
            r == Tsf::Absent,
    {
        Tsf::Absent
    }
}

impl TryFromSpecImpl<u8> for Tsf {
    open spec fn obeys_try_from_spec() -> bool {
        true
    }

    open spec fn try_from_spec(value: u8) -> Result<Self, Error> {
        Tsf::from_code(value)
    }
}

impl TryFrom<u8> for Tsf {
    type Error = Error;

    /// The kind that the code `value` stands for.
    fn try_from(value: u8) -> (r: Result<Self, Error>) {
        match value {
            0 => Ok(Tsf::Absent),
            1 => Ok(Tsf::SampleCount),
            2 => Ok(Tsf::RealTime),
            3 => Ok(Tsf::FreeRunning),
            _ => Err(Error::Tsf(value)),
        }
    }
}

impl FromSpecImpl<Tsf> for u8 {
    open spec fn obeys_from_spec() -> bool {
        true
    }

    open spec fn from_spec(tsf: Tsf) -> u8 {
        tsf.code()
    }
}

impl From<Tsf> for u8 {
    /// The code that stands for `tsf`.
    fn from(tsf: Tsf) -> (code: u8) {
        match tsf {
            Tsf::Absent => 0,
            Tsf::SampleCount => 1,
            Tsf::RealTime => 2,
            Tsf::FreeRunning => 3,
        }
    }
}

} // verus!
