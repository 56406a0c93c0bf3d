use vstd::prelude::*;
use vstd::std_specs::convert::{FromSpec, FromSpecImpl, TryFromSpec, TryFromSpecImpl};

use crate::Error;

verus! {

/// VRT Packet Type
#[derive(Clone, Copy, Debug, Eq, PartialEq, Structural)]
pub enum PktType {
    /// Standard IFDATA packet
    IfData,
    /// Standard IFDATA packet with a packet stream
    IfDataWithStream,
    /// Custom Extension Data packet
    ExtData,
    /// Custom Extension Data packet with a packet stream
    ExtDataWithStream,
    /// Standard IFCONTEXT packet with a context packet stream
    IfContext,
    /// Custom Extension packet with a context packet stream
    ExtContext,
}

impl PktType {
    /// The four-bit code that stands for this packet type in a header.
    pub open spec fn code(self) -> u8 {
        match self {
            PktType::IfData => 0,
            PktType::IfDataWithStream => 1,
            PktType::ExtData => 2,
            PktType::ExtDataWithStream => 3,
            PktType::IfContext => 4,
            PktType::ExtContext => 5,
        }
    }

    /// The packet type that `code` stands for. The codes 0 to 5 are in use;
    /// any other is refused and handed back in the error.
    pub open spec fn from_code(code: u8) -> Result<PktType, Error> {
        if code == 0 {
            Ok(PktType::IfData)
        } else if code == 1 {
            Ok(PktType::IfDataWithStream)
        } else if code == 2 {
            Ok(PktType::ExtData)
        } else if code == 3 {
            Ok(PktType::ExtDataWithStream)
        } else if code == 4 {
            Ok(PktType::IfContext)
        } else if code == 5 {
            Ok(PktType::ExtContext)
        } else {
            Err(Error::PktType(code))
        }
    }

    /// Whether a packet of this type carries a stream identifier.
    pub open spec fn carries_stream_id(self) -> bool {
        self == PktType::IfDataWithStream || self == PktType::ExtDataWithStream
    }

    /// Tells whether a packet of this type carries a stream identifier.
    pub fn has_stream_id(self) -> (r: bool)
        ensures
            r == self.carries_stream_id(),
    {
        match self {
            PktType::IfDataWithStream => true,
            PktType::ExtDataWithStream => true,
            _ => false,
        }
    }

    /// Every packet type is found again from its code.
    pub proof fn code_round_trip(self)
        ensures
            self.code() <= 5,
            PktType::from_code(self.code()) == Ok::<PktType, Error>(self),
            <PktType as TryFromSpec<u8>>::try_from_spec(<u8 as FromSpec<PktType>>::from_spec(self))
                == Ok::<PktType, Error>(self),
    {
    }

    /// Every code is either in use, and then the packet type it stands for
    /// has that code, or refused with an error that carries the code.
    pub proof fn from_code_total(code: u8)
        ensures
            code <= 5 ==> PktType::from_code(code) is Ok && PktType::from_code(code).unwrap().code()
                == code,
            code > 5 ==> PktType::from_code(code) == Err::<PktType, Error>(Error::PktType(code)),
    {
    }
}

impl TryFromSpecImpl<u8> for PktType {
    open spec fn obeys_try_from_spec() -> bool {
        true
    }

    open spec fn try_from_spec(value: u8) -> Result<Self, Error> {
        PktType::from_code(value)
    }
}

impl TryFrom<u8> for PktType {
    type Error = Error;

    /// The packet type that the code `value` stands for.
    fn try_from(value: u8) -> (r: Result<Self, Error>) {
        match value {
            0 => Ok(PktType::IfData),
            1 => Ok(PktType::IfDataWithStream),
            2 => Ok(PktType::ExtData),
            3 => Ok(PktType::ExtDataWithStream),
            4 => Ok(PktType::IfContext),
            5 => Ok(PktType::ExtContext),
            _ => Err(Error::PktType(value)),
        }
    }
}

impl FromSpecImpl<PktType> for u8 {
    open spec fn obeys_from_spec() -> bool {
        true
    }

    open spec fn from_spec(pkt_type: PktType) -> u8 {
        pkt_type.code()
    }
}

impl From<PktType> for u8 {
    /// The code that stands for `pkt_type`.
    fn from(pkt_type: PktType) -> (code: u8) {
        match pkt_type {
            PktType::IfData => 0,
            PktType::IfDataWithStream => 1,
            PktType::ExtData => 2,
            PktType::ExtDataWithStream => 3,
            PktType::IfContext => 4,
            PktType::ExtContext => 5,
        }
    }
}

} // verus!
