//! A parser and encoder for VITA Radio Transport (VITA 49.0) packets.
//!
//! A packet is a header word, up to four fields that the header announces, a
//! payload, and a trailer word if the header announces one. [`VrtPacket::parse`]
//! reads one from the front of a byte string, and [`VrtPacket::serialize`]
//! writes one out. Each part has its own `parse` and `serialize`.

pub mod bits;
mod error;
pub mod parser;
mod types;
pub mod wire;

pub use error::Error;
pub use parser::{parse_vrt_header, parse_vrt_packet, parse_vrt_trailer};
pub use types::{ClassId, Header, PktType, Trailer, Tsf, Tsi, VrtPacket, VrtPacketView};
