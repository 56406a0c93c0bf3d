use vstd::prelude::*;
use vstd::std_specs::convert::{FromSpec, FromSpecImpl, TryFromSpec, TryFromSpecImpl};

use crate::Error;

verus! {

/// Integer-Seconds Timestamp
#[derive(Clone, Copy, Debug, Eq, PartialEq, Structural)]
pub enum Tsi {
    /// No integer-seconds timestamp field.
    Absent,
    /// Integer-seconds timestamp field is a Coordinated Universal Time (UTC).
    Utc,
    /// Integer-seconds timestamp field is a GPS time.
    Gps,
    /// Integer-seconds timestamp field is in another format.
    Other,
}

impl Tsi {
    /// The two-bit code that stands for this kind in a header.
    pub open spec fn code(self) -> u8 {
        match self {
            Tsi::Absent => 0,
            Tsi::Utc => 1,
            Tsi::Gps => 2,
            Tsi::Other => 3,
        }
    }

    /// The kind that `code` stands for. The codes 0 to 3 are in use; any
    /// other is refused and handed back in the error.
    pub open spec fn from_code(code: u8) -> Result<Tsi, Error> {
        if code == 0 {
            Ok(Tsi::Absent)
        } else if code == 1 {
            Ok(Tsi::Utc)
        } else if code == 2 {
            Ok(Tsi::Gps)
        } else if code == 3 {
            Ok(Tsi::Other)
        } else {
            Err(Error::Tsi(code))
        }
    }

    /// Tells whether a packet with this kind carries an integer-seconds
    /// timestamp.
    pub fn is_present(self) -> (r: bool)
        ensures
            r == (self != Tsi::Absent),
    {
        match self {
            Tsi::Absent => false,
            _ => true,
        }
    }

    /// Every kind is found again from its code.
    pub proof fn code_round_trip(self)
        ensures
            self.code() <= 3,
            Tsi::from_code(self.code()) == Ok::<Tsi, Error>(self),
            <Tsi as TryFromSpec<u8>>::try_from_spec(<u8 as FromSpec<Tsi>>::from_spec(self)) == Ok::<
                Tsi,
                Error,
            >(self),
    {
    }

    /// Every code is either in use, and then the kind it stands for has that
    /// code, or refused with an error that carries the code.
    pub proof fn from_code_total(code: u8)
        ensures
            code <= 3 ==> Tsi::from_code(code) is Ok && Tsi::from_code(code).unwrap().code() == code,
            code > 3 ==> Tsi::from_code(code) == Err::<Tsi, Error>(Error::Tsi(code)),
    {
    }
}

impl Default for Tsi {
    /// No integer-seconds timestamp.
    fn default() -> (r: Tsi)
        ensures
            r == Tsi::Absent,
    {
        Tsi::Absent
    }
}

impl TryFromSpecImpl<u8> for Tsi {
    open spec fn obeys_try_from_spec() -> bool {
        true
    }

    open spec fn try_from_spec(value: u8) -> Result<Self, Error> {
        Tsi::from_code(value)
    }
}

impl TryFrom<u8> for Tsi {
    type Error = Error;

    /// The kind that the code `value` stands for.
    fn try_from(value: u8) -> (r: Result<Self, Error>) {
        match value {
            0 => Ok(Tsi::Absent),
            1 => Ok(Tsi::Utc),
            2 => Ok(Tsi::Gps),
            3 => Ok(Tsi::Other),
            _ => Err(Error::Tsi(value)),
        }
    }
}

impl FromSpecImpl<Tsi> for u8 {
    open spec fn obeys_from_spec() -> bool {
        true
    }

    open spec fn from_spec(tsi: Tsi) -> u8 {
        tsi.code()
    }
}

impl From<Tsi> for u8 {
    /// The code that stands for `tsi`.
    fn from(tsi: Tsi) -> (code: u8) {
        match tsi {
            Tsi::Absent => 0,
            Tsi::Utc => 1,
            Tsi::Gps => 2,
            Tsi::Other => 3,
        }
    }
}

} // verus!
