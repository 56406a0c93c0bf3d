use vstd::prelude::*;

use crate::bits::{
    bit, flag, get_bit, lemma_pack_bits, lemma_unpack_bits, pack, pack_bits, set_bit,
};
use crate::wire::take_u8;
use crate::Error;

verus! {

/// VRT Packet Trailer
#[derive(Clone, Copy, Debug, Eq, PartialEq, Structural)]
pub struct Trailer {
    /// Indicates whether or not the timestamp in the IF Data packet is calibrated to an external reference.
    pub calibrated_time_enable: bool,
    /// Indicates whether or not the data in the packet is valid.
    pub valid_data_enable: bool,
    /// Indicates whether or not any phase-locked loops affecting the data are locked and stable.
    pub reference_lock_enable: bool,
    /// Indicates the AGC is active when true and indicates the MGC is active when false.
    pub agcmgc_enable: bool,
    /// Indicates whether or not the data contained in the packet contains some detected signal.
    pub detected_signal_enable: bool,
    /// Indicates whether or not the signal conveyed in the data payload has an inverted spectrum referenced to the spectrum of the signal at the system Reference Point.
    pub spectral_inversion_enable: bool,
    /// Indicates whether or not at least 1 data sample in the payload is invalid due to the signal exceeding the range of the data item.
    pub overrange_enable: bool,
    /// Indicates whether or not the packet contains at least one sample discontinuity due to processing errors and/or buffer overflow.
    pub sample_loss_enable: bool,
    /// Indicates whether or not user defined enable option 1 is set.
    pub user_defined_enable_1: bool,
    /// Indicates whether or not user defined enable option 2 is set.
    pub user_defined_enable_2: bool,
    /// Indicates whether or not user defined enable option 3 is set.
    pub user_defined_enable_3: bool,
    /// Indicates whether or not user defined enable option 4 is set.
    pub user_defined_enable_4: bool,
    /// The calibrated-time indicator; it counts where `calibrated_time_enable` is set.
    pub calibrated_time_indicator: bool,
    /// The valid-data indicator; it counts where `valid_data_enable` is set.
    pub valid_data_indicator: bool,
    /// The reference-lock indicator; it counts where `reference_lock_enable` is set.
    pub reference_lock_indicator: bool,
    /// The AGC/MGC indicator; it counts where `agcmgc_enable` is set.
    pub agcmgc_indicator: bool,
    /// The detected-signal indicator; it counts where `detected_signal_enable` is set.
    pub detected_signal_indicator: bool,
    /// The spectral-inversion indicator; it counts where `spectral_inversion_enable` is set.
    pub spectral_inversion_indicator: bool,
    /// The overrange indicator; it counts where `overrange_enable` is set.
    pub overrange_indicator: bool,
    /// The sample-loss indicator; it counts where `sample_loss_enable` is set.
    pub sample_loss_indicator: bool,
    /// The first user-defined indicator.
    pub user_defined_indicator_1: bool,
    /// The second user-defined indicator.
    pub user_defined_indicator_2: bool,
    /// The third user-defined indicator.
    pub user_defined_indicator_3: bool,
    /// The fourth user-defined indicator.
    pub user_defined_indicator_4: bool,
    /// Indicates whether or not the associated_context_packet_count is defined.
    pub associated_context_packet_count_enable: bool,
    /// A count of all transmitted context packets that are directly or indirectly associated with the IF Data packet or a count of some special subset of these.
    pub associated_context_packet_count: u8,
}

impl Trailer {
    /// Whether every field fits its place in the trailer word: the count of
    /// associated context packets has seven bits.
    pub open spec fn wf(self) -> bool {
        self.associated_context_packet_count <= 0x7f
    }

    /// The trailer that the first four bytes of `s` hold. The first byte
    /// holds the eight enables; the second the four user-defined enables
    /// and the first four indicators; the third the other eight indicators;
    /// the fourth the enable of the count of associated context packets in
    /// its top bit, and the count in the seven bits below.
    pub open spec fn from_wire(s: Seq<u8>) -> Trailer {
        Trailer {
            calibrated_time_enable: bit(s[0], 7),
            valid_data_enable: bit(s[0], 6),
            reference_lock_enable: bit(s[0], 5),
            agcmgc_enable: bit(s[0], 4),
            detected_signal_enable: bit(s[0], 3),
            spectral_inversion_enable: bit(s[0], 2),
            overrange_enable: bit(s[0], 1),
            sample_loss_enable: bit(s[0], 0),
            user_defined_enable_1: bit(s[1], 7),
            user_defined_enable_2: bit(s[1], 6),
            user_defined_enable_3: bit(s[1], 5),
            user_defined_enable_4: bit(s[1], 4),
            calibrated_time_indicator: bit(s[1], 3),
            valid_data_indicator: bit(s[1], 2),
            reference_lock_indicator: bit(s[1], 1),
            agcmgc_indicator: bit(s[1], 0),
            detected_signal_indicator: bit(s[2], 7),
            spectral_inversion_indicator: bit(s[2], 6),
            overrange_indicator: bit(s[2], 5),
            sample_loss_indicator: bit(s[2], 4),
            user_defined_indicator_1: bit(s[2], 3),
            user_defined_indicator_2: bit(s[2], 2),
            user_defined_indicator_3: bit(s[2], 1),
            user_defined_indicator_4: bit(s[2], 0),
            associated_context_packet_count_enable: bit(s[3], 7),
            associated_context_packet_count: s[3] & 0x7f,
        }
    }

    /// The first byte of the trailer word: the eight enables.
    ///
    /// This byte and the three after it are opaque: with all twenty-five
    /// flags in sight at once the solver tries their combinations. Reveal
    /// one to see its bits.
    #[verifier::opaque]
    pub open spec fn enable_byte(self) -> u8 {
        pack(
            self.calibrated_time_enable,
            self.valid_data_enable,
            self.reference_lock_enable,
            self.agcmgc_enable,
            self.detected_signal_enable,
            self.spectral_inversion_enable,
            self.overrange_enable,
            self.sample_loss_enable,
        )
    }

    /// The second byte of the trailer word: the four user-defined enables,
    /// then the first four indicators.
    #[verifier::opaque]
    pub open spec fn user_enable_byte(self) -> u8 {
        pack(
            self.user_defined_enable_1,
            self.user_defined_enable_2,
            self.user_defined_enable_3,
            self.user_defined_enable_4,
            self.calibrated_time_indicator,
            self.valid_data_indicator,
            self.reference_lock_indicator,
            self.agcmgc_indicator,
        )
    }

    /// The third byte of the trailer word: the other four indicators, then
    /// the four user-defined indicators.
    #[verifier::opaque]
    pub open spec fn indicator_byte(self) -> u8 {
        pack(
            self.detected_signal_indicator,
            self.spectral_inversion_indicator,
            self.overrange_indicator,
            self.sample_loss_indicator,
            self.user_defined_indicator_1,
            self.user_defined_indicator_2,
            self.user_defined_indicator_3,
            self.user_defined_indicator_4,
        )
    }

    /// The fourth byte of the trailer word: the enable of the count of
    /// associated context packets in the top bit, and the low seven bits of
    /// the count below it.
    #[verifier::opaque]
    pub open spec fn count_byte(self) -> u8 {
        flag(self.associated_context_packet_count_enable, 7) | (self.associated_context_packet_count
            & 0x7f)
    }

    /// The four bytes that hold this trailer on the wire.
    pub open spec fn wire(self) -> Seq<u8> {
        seq![self.enable_byte(), self.user_enable_byte(), self.indicator_byte(), self.count_byte()]
    }

    /// What parsing the bytes `s` gives: the trailer at their front, or the
    /// number of bytes by which they fall short of four. Every four bytes
    /// are a trailer.
    pub open spec fn decode(s: Seq<u8>) -> Result<Trailer, Error> {
        if s.len() < 4 {
            Err(Error::Incomplete((4 - s.len()) as usize))
        } else {
            Ok(Trailer::from_wire(s))
        }
    }

    /// Parse the VRT packet trailer
    ///
    /// Reads the trailer at the front of `i` and hands it back with the
    /// bytes that follow it.
    pub fn parse(i: &[u8]) -> (r: Result<(&[u8], Trailer), Error>)
        ensures
            match Trailer::decode(i@) {
                Ok(trailer) => (r matches Ok((rest, found)) && found == trailer && found.wf()
                    && rest@ == i@.skip(4)),
                Err(e) => (r matches Err(failure) && failure == e),
            },
    {
        if i.len() < 4 {
            return Err(Error::Incomplete(4 - i.len()));
        }
        let (rest, first_byte) = take_u8(i)?;
        let (rest, second_byte) = take_u8(rest)?;
        let (rest, third_byte) = take_u8(rest)?;
        let (rest, fourth_byte) = take_u8(rest)?;
        assert(rest@ == i@.skip(4));
        assert(fourth_byte & 0x7f <= 0x7f) by (bit_vector);

        let trailer = Trailer {
            calibrated_time_enable: get_bit(first_byte, 7),
            valid_data_enable: get_bit(first_byte, 6),
            reference_lock_enable: get_bit(first_byte, 5),
            agcmgc_enable: get_bit(first_byte, 4),
            detected_signal_enable: get_bit(first_byte, 3),
            spectral_inversion_enable: get_bit(first_byte, 2),
            overrange_enable: get_bit(first_byte, 1),
            sample_loss_enable: get_bit(first_byte, 0),
            user_defined_enable_1: get_bit(second_byte, 7),
            user_defined_enable_2: get_bit(second_byte, 6),
            user_defined_enable_3: get_bit(second_byte, 5),
            user_defined_enable_4: get_bit(second_byte, 4),
            calibrated_time_indicator: get_bit(second_byte, 3),
            valid_data_indicator: get_bit(second_byte, 2),
            reference_lock_indicator: get_bit(second_byte, 1),
            agcmgc_indicator: get_bit(second_byte, 0),
            detected_signal_indicator: get_bit(third_byte, 7),
            spectral_inversion_indicator: get_bit(third_byte, 6),
            overrange_indicator: get_bit(third_byte, 5),
            sample_loss_indicator: get_bit(third_byte, 4),
            user_defined_indicator_1: get_bit(third_byte, 3),
            user_defined_indicator_2: get_bit(third_byte, 2),
            user_defined_indicator_3: get_bit(third_byte, 1),
            user_defined_indicator_4: get_bit(third_byte, 0),
            associated_context_packet_count_enable: get_bit(fourth_byte, 7),
            associated_context_packet_count: fourth_byte & 0x7f,
        };
        Ok((rest, trailer))
    }

    /// Serialize the VRT packet trailer
    ///
    /// Writes the trailer over the first four bytes of `buffer` and says
    /// that four bytes were written. A shorter buffer is left as it is.
    pub fn serialize(&self, buffer: &mut [u8]) -> (r: Result<usize, Error>)
        ensures
            old(buffer)@.len() < 4 ==> r == Err::<usize, Error>(Error::BufferFull)
                && final(buffer)@ == old(buffer)@,
            old(buffer)@.len() >= 4 ==> r == Ok::<usize, Error>(4) && final(buffer)@ == self.wire()
                + old(buffer)@.skip(4),
    {
        if buffer.len() < 4 {
            return Err(Error::BufferFull);
        }
        buffer[0] = self.first_byte();
        buffer[1] = self.second_byte();
        buffer[2] = self.third_byte();
        buffer[3] = self.fourth_byte();

        Ok(4)
    }

    fn first_byte(&self) -> (r: u8)
        ensures
            r == self.enable_byte(),
    {
        reveal(Trailer::enable_byte);
        pack_bits(
            self.calibrated_time_enable,
            self.valid_data_enable,
            self.reference_lock_enable,
            self.agcmgc_enable,
            self.detected_signal_enable,
            self.spectral_inversion_enable,
            self.overrange_enable,
            self.sample_loss_enable,
        )
    }

    fn second_byte(&self) -> (r: u8)
        ensures
            r == self.user_enable_byte(),
    {
        reveal(Trailer::user_enable_byte);
        pack_bits(
            self.user_defined_enable_1,
            self.user_defined_enable_2,
            self.user_defined_enable_3,
            self.user_defined_enable_4,
            self.calibrated_time_indicator,
            self.valid_data_indicator,
            self.reference_lock_indicator,
            self.agcmgc_indicator,
        )
    }

    fn third_byte(&self) -> (r: u8)
        ensures
            r == self.indicator_byte(),
    {
        reveal(Trailer::indicator_byte);
        pack_bits(
            self.detected_signal_indicator,
            self.spectral_inversion_indicator,
            self.overrange_indicator,
            self.sample_loss_indicator,
            self.user_defined_indicator_1,
            self.user_defined_indicator_2,
            self.user_defined_indicator_3,
            self.user_defined_indicator_4,
        )
    }

    fn fourth_byte(&self) -> (r: u8)
        ensures
            r == self.count_byte(),
    {
        reveal(Trailer::count_byte);
        set_bit(self.associated_context_packet_count_enable, 7) | (
        self.associated_context_packet_count & 0x7f)
    }

    /// The eight enables are read back from the first byte.
    proof fn lemma_enable_byte(self)
        ensures
            bit(self.enable_byte(), 7) == self.calibrated_time_enable,
            bit(self.enable_byte(), 6) == self.valid_data_enable,
            bit(self.enable_byte(), 5) == self.reference_lock_enable,
            bit(self.enable_byte(), 4) == self.agcmgc_enable,
            bit(self.enable_byte(), 3) == self.detected_signal_enable,
            bit(self.enable_byte(), 2) == self.spectral_inversion_enable,
            bit(self.enable_byte(), 1) == self.overrange_enable,
            bit(self.enable_byte(), 0) == self.sample_loss_enable,
    {
        reveal(Trailer::enable_byte);
        lemma_pack_bits(
            self.calibrated_time_enable,
            self.valid_data_enable,
            self.reference_lock_enable,
            self.agcmgc_enable,
            self.detected_signal_enable,
            self.spectral_inversion_enable,
            self.overrange_enable,
            self.sample_loss_enable,
        );
    }

    /// The user-defined enables and the first four indicators are read back
    /// from the second byte.
    proof fn lemma_user_enable_byte(self)
        ensures
            bit(self.user_enable_byte(), 7) == self.user_defined_enable_1,
            bit(self.user_enable_byte(), 6) == self.user_defined_enable_2,
            bit(self.user_enable_byte(), 5) == self.user_defined_enable_3,
            bit(self.user_enable_byte(), 4) == self.user_defined_enable_4,
            bit(self.user_enable_byte(), 3) == self.calibrated_time_indicator,
            bit(self.user_enable_byte(), 2) == self.valid_data_indicator,
            bit(self.user_enable_byte(), 1) == self.reference_lock_indicator,
            bit(self.user_enable_byte(), 0) == self.agcmgc_indicator,
    {
        reveal(Trailer::user_enable_byte);
        lemma_pack_bits(
            self.user_defined_enable_1,
            self.user_defined_enable_2,
            self.user_defined_enable_3,
            self.user_defined_enable_4,
            self.calibrated_time_indicator,
            self.valid_data_indicator,
            self.reference_lock_indicator,
            self.agcmgc_indicator,
        );
    }

    /// The other indicators are read back from the third byte.
    proof fn lemma_indicator_byte(self)
        ensures
            bit(self.indicator_byte(), 7) == self.detected_signal_indicator,
            bit(self.indicator_byte(), 6) == self.spectral_inversion_indicator,
            bit(self.indicator_byte(), 5) == self.overrange_indicator,
            bit(self.indicator_byte(), 4) == self.sample_loss_indicator,
            bit(self.indicator_byte(), 3) == self.user_defined_indicator_1,
            bit(self.indicator_byte(), 2) == self.user_defined_indicator_2,
            bit(self.indicator_byte(), 1) == self.user_defined_indicator_3,
            bit(self.indicator_byte(), 0) == self.user_defined_indicator_4,
    {
        reveal(Trailer::indicator_byte);
        lemma_pack_bits(
            self.detected_signal_indicator,
            self.spectral_inversion_indicator,
            self.overrange_indicator,
            self.sample_loss_indicator,
            self.user_defined_indicator_1,
            self.user_defined_indicator_2,
            self.user_defined_indicator_3,
            self.user_defined_indicator_4,
        );
    }

    /// The count of associated context packets and its enable are read back
    /// from the fourth byte, if the count has seven bits.
    proof fn lemma_count_byte(self)
        requires
            self.wf(),
        ensures
            bit(self.count_byte(), 7) == self.associated_context_packet_count_enable,
            self.count_byte() & 0x7f == self.associated_context_packet_count,
    {
        reveal(Trailer::count_byte);
        let enable = self.associated_context_packet_count_enable;
        let count = self.associated_context_packet_count;
        assert(bit(flag(enable, 7) | (count & 0x7f), 7) == enable && (flag(enable, 7) | (count
            & 0x7f)) & 0x7f == count) by (bit_vector)
            requires
                count <= 0x7f,
        ;
    }

    /// A trailer whose fields fit the trailer word is read back from the
    /// bytes that hold it, whatever follows them.
    pub proof fn round_trip(self, tail: Seq<u8>)
        requires
            self.wf(),
        ensures
            self.wire().len() == 4,
            Trailer::from_wire(self.wire() + tail) == self,
            Trailer::decode(self.wire() + tail) == Ok::<Trailer, Error>(self),
    {
        self.lemma_enable_byte();
        self.lemma_user_enable_byte();
        self.lemma_indicator_byte();
        self.lemma_count_byte();
        let s = self.wire() + tail;
        assert(s[0] == self.enable_byte());
        assert(s[1] == self.user_enable_byte());
        assert(s[2] == self.indicator_byte());
        assert(s[3] == self.count_byte());
    }

    /// Whatever four bytes are read as a trailer, the trailer's fields fit
    /// the trailer word, and writing it gives the four bytes again.
    pub proof fn wire_round_trip(s: Seq<u8>)
        requires
            s.len() >= 4,
        ensures
            Trailer::from_wire(s).wf(),
            Trailer::from_wire(s).wire() == s.subrange(0, 4),
    {
        let t = Trailer::from_wire(s);
        assert(t.enable_byte() == s[0]) by {
            reveal(Trailer::enable_byte);
            lemma_unpack_bits(s[0]);
        }
        assert(t.user_enable_byte() == s[1]) by {
            reveal(Trailer::user_enable_byte);
            lemma_unpack_bits(s[1]);
        }
        assert(t.indicator_byte() == s[2]) by {
            reveal(Trailer::indicator_byte);
            lemma_unpack_bits(s[2]);
        }
        let last = s[3];
        assert(t.count_byte() == last && t.wf()) by {
            reveal(Trailer::count_byte);
            assert((flag(bit(last, 7), 7) | ((last & 0x7f) & 0x7f)) == last && last & 0x7f <= 0x7f)
                by (bit_vector);
        }
        assert(t.wire() =~= s.subrange(0, 4));
    }
}

} // verus!
