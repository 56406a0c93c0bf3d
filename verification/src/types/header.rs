use vstd::prelude::*;
use vstd::std_specs::convert::TryFromSpec;

use crate::bits::{bit, flag, get_bit, set_bit};
use crate::types::{PktType, Tsf, Tsi};
use crate::wire::{
    be_u16_bytes, be_u16_value, lemma_be_u16_bytes_of_value, lemma_be_u16_round_trip, put_u16,
    take_u16, take_u8,
};
use crate::Error;

verus! {

/// VRT Packet Header
#[derive(Clone, Copy, Debug, Eq, PartialEq, Structural)]
pub struct Header {
    /// VRT Packet Type
    pub packet_type: PktType,
    /// Is the Class Identifier (Class ID) field included in the packet?
    pub c: bool,
    /// Is the VRT Packet Trailer included in the packet?
    pub t: bool,
    /// Type of Integer-seconds Timestamp included in the packet.
    pub tsi: Tsi,
    /// Type of Fractional-seconds Timestamp included in the packet.
    pub tsf: Tsf,
    /// Incremental count of data packets in the same stream. Rolls over from "1111" to "0000" as needed.
    pub packet_count: u8,
    /// The total number of 32-bit words present in the data packet including the header, payload, and any optional fields.
    pub packet_size: u16,
}

impl Header {
    /// Whether every field fits its place in the header word: the packet
    /// count has four bits.
    pub open spec fn wf(self) -> bool {
        self.packet_count <= 0x0f
    }

    /// The first byte of the header word: the packet type's code in the top
    /// four bits, then the class identifier flag and the trailer flag; the
    /// two bits below them are reserved and left clear.
    pub open spec fn type_byte(self) -> u8 {
        (self.packet_type.code() << 4) | flag(self.c, 3) | flag(self.t, 2)
    }

    /// The second byte of the header word: the codes of the two timestamp
    /// kinds in two bits each, then the low four bits of the packet count.
    pub open spec fn time_byte(self) -> u8 {
        (self.tsi.code() << 6) | (self.tsf.code() << 4) | (self.packet_count & 0x0f)
    }

    /// The four bytes that hold this header on the wire: the two bytes
    /// above, then the packet size, big-endian.
    pub open spec fn wire(self) -> Seq<u8> {
        seq![self.type_byte(), self.time_byte()] + be_u16_bytes(self.packet_size)
    }

    /// What parsing the bytes `s` gives: the header that their first four
    /// bytes hold, the number of bytes by which they fall short of four, or
    /// the code in them that stands for nothing. The two reserved bits are
    /// not looked at.
    pub open spec fn decode(s: Seq<u8>) -> Result<Header, Error> {
        if s.len() < 4 {
            Err(Error::Incomplete((4 - s.len()) as usize))
        } else {
            match PktType::from_code(s[0] >> 4) {
                Err(e) => Err(e),
                Ok(packet_type) => match Tsi::from_code((s[1] >> 6) & 0b11) {
                    Err(e) => Err(e),
                    Ok(tsi) => match Tsf::from_code((s[1] >> 4) & 0b11) {
                        Err(e) => Err(e),
                        Ok(tsf) => Ok(
                            Header {
                                packet_type,
                                c: bit(s[0], 3),
                                t: bit(s[0], 2),
                                tsi,
                                tsf,
                                packet_count: s[1] & 0x0f,
                                packet_size: be_u16_value(s.skip(2)),
                            },
                        ),
                    },
                },
            }
        }
    }

    /// Whether a stream identifier follows the header word.
    pub open spec fn has_stream_id(self) -> bool {
        self.packet_type.carries_stream_id()
    }

    /// Whether an integer-seconds timestamp is among the fields.
    pub open spec fn has_tsi(self) -> bool {
        self.tsi != Tsi::Absent
    }

    /// Whether a fractional-seconds timestamp is among the fields.
    pub open spec fn has_tsf(self) -> bool {
        self.tsf != Tsf::Absent
    }

    /// Where the class identifier starts, if there is one: behind the
    /// header word and the stream identifier.
    pub open spec fn class_id_offset(self) -> nat {
        if self.has_stream_id() {
            8
        } else {
            4
        }
    }

    /// Where the integer-seconds timestamp starts, if there is one: behind
    /// the class identifier.
    pub open spec fn tsi_offset(self) -> nat {
        if self.c {
            self.class_id_offset() + 8
        } else {
            self.class_id_offset()
        }
    }

    /// Where the fractional-seconds timestamp starts, if there is one:
    /// behind the integer-seconds timestamp.
    pub open spec fn tsf_offset(self) -> nat {
        if self.has_tsi() {
            self.tsi_offset() + 4
        } else {
            self.tsi_offset()
        }
    }

    /// The number of bytes from the start of the packet to its payload: the
    /// header word, and four bytes of stream identifier, eight of class
    /// identifier, four of integer-seconds and eight of fractional-seconds
    /// timestamp, each where this header announces the field.
    pub open spec fn prologue_len(self) -> nat {
        if self.has_tsf() {
            self.tsf_offset() + 8
        } else {
            self.tsf_offset()
        }
    }

    /// The number of bytes that the trailer takes: four if this header
    /// announces one.
    pub open spec fn trailer_len(self) -> nat {
        if self.t {
            4
        } else {
            0
        }
    }

    /// The number of bytes of the whole packet, as this header gives it in
    /// words of four bytes.
    pub open spec fn packet_len(self) -> nat {
        (self.packet_size * 4) as nat
    }

    /// The number of bytes of payload that this header leaves: what the
    /// packet size covers beyond the header word, the announced fields and
    /// the trailer. It is negative where the packet size does not cover
    /// them.
    pub open spec fn payload_len(self) -> int {
        self.packet_len() - self.prologue_len() - self.trailer_len()
    }

    /// Parse the VRT packet header
    ///
    /// Reads the header word at the front of `i` and hands it back with the
    /// bytes that follow it.
    pub fn parse(i: &[u8]) -> (r: Result<(&[u8], Header), Error>)
        ensures
            match Header::decode(i@) {
                Ok(header) => (r matches Ok((rest, found)) && found == header && found.wf() && rest@
                    == i@.skip(4)),
                Err(e) => (r matches Err(failure) && failure == e),
            },
            i@.len() < 4 ==> (r matches Err(failure) && failure == Error::Incomplete(
                (4 - i@.len()) as usize,
            )),
            i@.len() >= 4 && i@[0] >> 4 > 5 ==> (r matches Err(failure) && failure == Error::PktType(
                i@[0] >> 4,
            )),
            i@.len() >= 4 && i@[0] >> 4 <= 5 ==> r is Ok,
            r matches Err(failure) ==> failure is Incomplete || failure is PktType,
    {
        proof {
            Header::decode_failures(i@);
        }
        if i.len() < 4 {
            return Err(Error::Incomplete(4 - i.len()));
        }
        let (rest, first_byte) = take_u8(i)?;
        let packet_type = PktType::try_from(first_byte >> 4)?;
        let c = get_bit(first_byte, 3);
        let t = get_bit(first_byte, 2);

        let (rest, second_byte) = take_u8(rest)?;
        let tsi = Tsi::try_from((second_byte >> 6) & 0b11)?;
        let tsf = Tsf::try_from((second_byte >> 4) & 0b11)?;
        let packet_count: u8 = second_byte & 0xf;
        assert(second_byte & 0xf <= 0xf) by (bit_vector);

        assert(rest@ == i@.skip(2));
        let (rest, packet_size) = take_u16(rest)?;

        let header = Header { packet_type, c, t, tsi, tsf, packet_count, packet_size };
        Ok((rest, header))
    }

    /// Serialize the VRT packet header
    ///
    /// Writes the header word over the first four bytes of `buffer` and says
    /// that four bytes were written. A shorter buffer is left as it is.
    pub fn serialize(&self, buffer: &mut [u8]) -> (r: Result<usize, Error>)
        ensures
            old(buffer)@.len() < 4 ==> r == Err::<usize, Error>(Error::BufferFull)
                && final(buffer)@ == old(buffer)@,
            old(buffer)@.len() >= 4 ==> r == Ok::<usize, Error>(4) && final(buffer)@ == self.wire()
                + old(buffer)@.skip(4),
    {
        if buffer.len() < 4 {
            return Err(Error::BufferFull);
        }
        buffer[0] = (u8::from(self.packet_type) << 4) | set_bit(self.c, 3) | set_bit(self.t, 2);
        buffer[1] = (u8::from(self.tsi) << 6) | (u8::from(self.tsf) << 4) | (self.packet_count
            & 0xf);
        let (_, tail) = buffer.split_at_mut(2);
        put_u16(tail, self.packet_size);

        Ok(4)
    }

    /// Tells how many bytes of payload this header leaves, or that the
    /// packet size does not cover the header word, the announced fields and
    /// the trailer.
    pub fn payload_size(&self) -> (r: Result<usize, Error>)
        ensures
            self.payload_len() >= 0 ==> r == Ok::<usize, Error>(self.payload_len() as usize),
            self.payload_len() < 0 ==> r matches Err(Error::TryFromIntError(_)),
            match <usize as TryFromSpec<i64>>::try_from_spec(self.payload_len() as i64) {
                Ok(n) => r == Ok::<usize, Error>(n),
                Err(e) => r == Err::<usize, Error>(Error::TryFromIntError(e)),
            },
    {
        let mut fixed: i64 = 4;
        if self.packet_type.has_stream_id() {
            fixed += 4;
        }
        if self.c {
            fixed += 8;
        }
        if self.tsi.is_present() {
            fixed += 4;
        }
        if self.tsf.is_present() {
            fixed += 8;
        }
        if self.t {
            fixed += 4;
        }
        match usize::try_from(self.packet_size as i64 * 4 - fixed) {
            Ok(n) => Ok(n),
            Err(e) => Err(Error::from(e)),
        }
    }

    /// The payload has what the packet size leaves of the packet: four
    /// bytes for each word, less the header word, less the trailer if it is
    /// announced, less the width of each field that is announced.
    pub proof fn payload_len_by_fields(self)
        ensures
            self.payload_len() == self.packet_size * 4 - 4 - (if self.t {
                4int
            } else {
                0int
            }) - (if self.has_stream_id() {
                4int
            } else {
                0int
            }) - (if self.c {
                8int
            } else {
                0int
            }) - (if self.has_tsi() {
                4int
            } else {
                0int
            }) - (if self.has_tsf() {
                8int
            } else {
                0int
            }),
    {
    }

    /// A header whose fields fit the header word is read back from the bytes
    /// that hold it, whatever follows them.
    pub proof fn round_trip(self, tail: Seq<u8>)
        requires
            self.wf(),
        ensures
            self.wire().len() == 4,
            Header::decode(self.wire() + tail) == Ok::<Header, Error>(self),
    {
        let s = self.wire() + tail;
        let code = self.packet_type.code();
        let c = self.c;
        let t = self.t;
        let first = self.type_byte();
        assert(first >> 4 == code && bit(first, 3) == c && bit(first, 2) == t) by (bit_vector)
            requires
                code <= 5,
                first == (code << 4) | flag(c, 3) | flag(t, 2),
        ;
        let tsi = self.tsi.code();
        let tsf = self.tsf.code();
        let count = self.packet_count;
        let second = self.time_byte();
        assert((second >> 6) & 0b11 == tsi && (second >> 4) & 0b11 == tsf && second & 0x0f == count)
            by (bit_vector)
            requires
                tsi <= 3,
                tsf <= 3,
                count <= 0x0f,
                second == (tsi << 6) | (tsf << 4) | (count & 0x0f),
        ;
        self.packet_type.code_round_trip();
        self.tsi.code_round_trip();
        self.tsf.code_round_trip();
        lemma_be_u16_round_trip(self.packet_size, tail);
        assert(s[0] == first);
        assert(s[1] == second);
        assert(s.skip(2) == be_u16_bytes(self.packet_size) + tail);
    }

    /// Parsing a header fails only for want of bytes or for the code of the
    /// packet type: the codes of the two timestamp kinds have two bits, and
    /// every such code is in use.
    pub proof fn decode_failures(s: Seq<u8>)
        ensures
            Header::decode(s) is Err <==> s.len() < 4 || s[0] >> 4 > 5,
            s.len() < 4 ==> Header::decode(s) == Err::<Header, Error>(
                Error::Incomplete((4 - s.len()) as usize),
            ),
            s.len() >= 4 && s[0] >> 4 > 5 ==> Header::decode(s) == Err::<Header, Error>(
                Error::PktType(s[0] >> 4),
            ),
            Header::decode(s) matches Ok(header) ==> header.wf(),
    {
        if s.len() >= 4 {
            let second = s[1];
            assert((second >> 6) & 0b11 <= 3 && (second >> 4) & 0b11 <= 3 && second & 0x0f <= 0x0f)
                by (bit_vector);
        }
    }

    /// Whatever four bytes are read as a header, writing it gives the four
    /// bytes again, if the two reserved bits in them are clear.
    pub proof fn wire_round_trip(s: Seq<u8>)
        requires
            Header::decode(s) is Ok,
            s[0] & 0b11 == 0,
        ensures
            Header::decode(s).unwrap().wire() == s.subrange(0, 4),
    {
        Header::decode_failures(s);
        let header = Header::decode(s).unwrap();
        let first = s[0];
        let second = s[1];
        PktType::from_code_total(first >> 4);
        assert((second >> 6) & 0b11 <= 3 && (second >> 4) & 0b11 <= 3) by (bit_vector);
        Tsi::from_code_total((second >> 6) & 0b11);
        Tsf::from_code_total((second >> 4) & 0b11);
        assert(((first >> 4) << 4) | flag(bit(first, 3), 3) | flag(bit(first, 2), 2) == first)
            by (bit_vector)
            requires
                first & 0b11 == 0,
        ;
        assert((((second >> 6) & 0b11) << 6) | (((second >> 4) & 0b11) << 4) | ((second & 0x0f)
            & 0x0f) == second) by (bit_vector);
        lemma_be_u16_bytes_of_value(s.skip(2));
        assert(header.wire() =~= s.subrange(0, 4));
    }
}

} // verus!
