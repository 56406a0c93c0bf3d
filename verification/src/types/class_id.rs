use vstd::prelude::*;

use crate::wire::{
    be_u16_bytes, be_u16_value, be_u32_bytes, be_u32_value, lemma_be_u16_bytes_of_value,
    lemma_be_u16_round_trip, lemma_be_u32_bytes_of_value, lemma_be_u32_round_trip, put_u16,
    put_u32, take_u16, take_u32,
};
use crate::Error;

verus! {

/// Class Identifier
#[derive(Clone, Copy, Debug, Eq, PartialEq, Structural)]
pub struct ClassId {
    /// Organizationally Unique Identifier assigned by IEEE, VITA, the VRT Profile author, or a reserved OUI.
    pub oui: u32,
    /// Information Class Code
    pub information_class_code: u16,
    /// Packet Class Code
    pub packet_class_code: u16,
}

impl ClassId {
    /// The number of bytes that a class identifier takes on the wire.
    pub open spec fn wire_len() -> nat {
        8
    }

    /// The class identifier that the first eight bytes of `s` hold: the
    /// organization's identifier in four bytes, then the information class
    /// and the packet class in two bytes each, all big-endian.
    pub open spec fn from_wire(s: Seq<u8>) -> ClassId {
        ClassId {
            oui: be_u32_value(s),
            information_class_code: be_u16_value(s.skip(4)),
            packet_class_code: be_u16_value(s.skip(6)),
        }
    }

    /// The eight bytes that hold this class identifier on the wire.
    pub open spec fn wire(self) -> Seq<u8> {
        be_u32_bytes(self.oui) + be_u16_bytes(self.information_class_code) + be_u16_bytes(
            self.packet_class_code,
        )
    }

    /// What parsing the bytes `s` gives: the class identifier at their
    /// front, or the number of bytes by which they fall short of eight.
    pub open spec fn decode(s: Seq<u8>) -> Result<ClassId, Error> {
        if s.len() < 8 {
            Err(Error::Incomplete((8 - s.len()) as usize))
        } else {
            Ok(ClassId::from_wire(s))
        }
    }

    /// Parse the Class ID
    ///
    /// Reads the class identifier at the front of `i` and hands it back with
    /// the bytes that follow it.
    pub fn parse(i: &[u8]) -> (r: Result<(&[u8], ClassId), Error>)
        ensures
            match ClassId::decode(i@) {
                Ok(class_id) => (r matches Ok((rest, found)) && found == class_id && rest@
                    == i@.skip(8)),
                Err(e) => (r matches Err(failure) && failure == e),
            },
    {
        if i.len() < 8 {
            return Err(Error::Incomplete(8 - i.len()));
        }
        let (rest, oui) = take_u32(i)?;
        assert(rest@.skip(2) == i@.skip(6));
        let (rest, information_class_code) = take_u16(rest)?;
        let (rest, packet_class_code) = take_u16(rest)?;

        Ok((rest, ClassId { oui, information_class_code, packet_class_code }))
    }

    /// Serialize the Class ID
    ///
    /// Writes the class identifier over the first eight bytes of `buffer`
    /// and says that eight bytes were written. A shorter buffer is left as
    /// it is.
    pub fn serialize(&self, buffer: &mut [u8]) -> (r: Result<usize, Error>)
        ensures
            old(buffer)@.len() < 8 ==> r == Err::<usize, Error>(Error::BufferFull)
                && final(buffer)@ == old(buffer)@,
            old(buffer)@.len() >= 8 ==> r == Ok::<usize, Error>(8) && final(buffer)@ == self.wire()
                + old(buffer)@.skip(8),
    {
        if buffer.len() < 8 {
            return Err(Error::BufferFull);
        }
        put_u32(buffer, self.oui);
        let (_, tail) = buffer.split_at_mut(4);
        put_u16(tail, self.information_class_code);
        let (_, tail) = tail.split_at_mut(2);
        put_u16(tail, self.packet_class_code);

        Ok(8)
    }

    /// A class identifier is read back from the bytes that hold it, whatever
    /// follows them.
    pub proof fn round_trip(self, tail: Seq<u8>)
        ensures
            self.wire().len() == 8,
            ClassId::from_wire(self.wire() + tail) == self,
            ClassId::decode(self.wire() + tail) == Ok::<ClassId, Error>(self),
    {
        let s = self.wire() + tail;
        let after_oui = be_u16_bytes(self.information_class_code) + be_u16_bytes(
            self.packet_class_code,
        ) + tail;
        let after_information = be_u16_bytes(self.packet_class_code) + tail;
        lemma_be_u32_round_trip(self.oui, after_oui);
        lemma_be_u16_round_trip(self.information_class_code, after_information);
        lemma_be_u16_round_trip(self.packet_class_code, tail);
        assert(s == be_u32_bytes(self.oui) + after_oui);
        assert(s.skip(4) == be_u16_bytes(self.information_class_code) + after_information);
        assert(s.skip(6) == be_u16_bytes(self.packet_class_code) + tail);
    }

    /// Whatever eight bytes are read as a class identifier, writing it
    /// gives the eight bytes again.
    pub proof fn wire_round_trip(s: Seq<u8>)
        requires
            s.len() >= 8,
        ensures
            ClassId::from_wire(s).wire() == s.subrange(0, 8),
    {
        lemma_be_u32_bytes_of_value(s);
        lemma_be_u16_bytes_of_value(s.skip(4));
        lemma_be_u16_bytes_of_value(s.skip(6));
        assert(ClassId::from_wire(s).wire() =~= s.subrange(0, 8));
    }
}

} // verus!