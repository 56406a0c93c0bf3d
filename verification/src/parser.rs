//! The three parsers as plain functions, for callers that hand a parser on
//! as a value.

use vstd::prelude::*;

use crate::types::{Header, Trailer, VrtPacket, VrtPacketView};
use crate::Error;

verus! {

/// Parses the VRT packet's header
///
/// Reads the header word at the front of `i` and hands it back with the
/// bytes that follow it.
pub fn parse_vrt_header(i: &[u8]) -> (r: Result<(&[u8], Header), Error>)
    ensures
        match Header::decode(i@) {
            Ok(header) => (r matches Ok((rest, found)) && found == header && found.wf() && rest@
                == i@.skip(4)),
            Err(e) => (r matches Err(failure) && failure == e),
        },
{
    Header::parse(i)
}

/// Parses the VRT packet's trailer
///
/// Reads the trailer word at the front of `i` and hands it back with the
/// bytes that follow it.
pub fn parse_vrt_trailer(i: &[u8]) -> (r: Result<(&[u8], Trailer), Error>)
    ensures
        match Trailer::decode(i@) {
            Ok(trailer) => (r matches Ok((rest, found)) && found == trailer && found.wf() && rest@
                == i@.skip(4)),
            Err(e) => (r matches Err(failure) && failure == e),
        },
{
    Trailer::parse(i)
}

/// Parses the VRT packet
///
/// Reads the packet at the front of `i` and hands it back with the bytes
/// that follow it.
pub fn parse_vrt_packet(i: &[u8]) -> (r: Result<(&[u8], VrtPacket<'_>), Error>)
    ensures
        match VrtPacketView::decode(i@) {
            Ok(packet) => (r matches Ok((rest, found)) && found@ == packet && found@.fits_wire()
                && rest@ == i@.skip(packet.header.packet_len() as int)),
            Err(e) => (r matches Err(failure) && failure == e),
        },
{
    VrtPacket::parse(i)
}

} // verus!
