use vstd::prelude::*;

use crate::types::{ClassId, Header, Trailer, VrtPacketView};
use crate::wire::{
    lemma_be_u32_bytes_of_value, lemma_be_u32_round_trip, lemma_be_u64_bytes_of_value,
    lemma_be_u64_round_trip,
};
use crate::Error;

verus! {

impl VrtPacketView {
    /// The bytes that hold the packet are as many as `packet_len` says, and
    /// a whole number of words.
    pub proof fn wire_len(self)
        requires
            self.wf(),
        ensures
            self.wire().len() == self.packet_len(),
            self.packet_len() % 4 == 0,
            self.packet_len() >= 4,
    {
        if let Some(class_id) = self.class_id {
            class_id.round_trip(Seq::empty());
        }
        if let Some(trailer) = self.trailer {
            assert(trailer.wire().len() == 4);
        }
    }

    /// What stands on the wire from the trailer on, where `tail` follows
    /// the packet.
    spec fn from_trailer(self, tail: Seq<u8>) -> Seq<u8> {
        self.trailer_bytes() + tail
    }

    /// What stands on the wire from the payload on.
    spec fn from_payload(self, tail: Seq<u8>) -> Seq<u8> {
        self.data_payload + self.from_trailer(tail)
    }

    /// What stands on the wire from the fractional-seconds timestamp on.
    spec fn from_tsf(self, tail: Seq<u8>) -> Seq<u8> {
        self.tsf_bytes() + self.from_payload(tail)
    }

    /// What stands on the wire from the integer-seconds timestamp on.
    spec fn from_tsi(self, tail: Seq<u8>) -> Seq<u8> {
        self.tsi_bytes() + self.from_tsf(tail)
    }

    /// What stands on the wire from the class identifier on.
    spec fn from_class_id(self, tail: Seq<u8>) -> Seq<u8> {
        self.class_id_bytes() + self.from_tsi(tail)
    }

    /// What stands on the wire from the stream identifier on.
    spec fn from_stream_id(self, tail: Seq<u8>) -> Seq<u8> {
        self.stream_id_bytes() + self.from_class_id(tail)
    }

    /// Each part of a well-formed packet stands on the wire at the offset
    /// that the header gives for it.
    proof fn lemma_layout(self, tail: Seq<u8>)
        requires
            self.wf(),
        ensures
            self.wire() + tail == self.wire_header().wire() + self.from_stream_id(tail),
            (self.wire() + tail).skip(4) == self.from_stream_id(tail),
            (self.wire() + tail).skip(self.header.class_id_offset() as int) == self.from_class_id(
                tail,
            ),
            (self.wire() + tail).skip(self.header.tsi_offset() as int) == self.from_tsi(tail),
            (self.wire() + tail).skip(self.header.tsf_offset() as int) == self.from_tsf(tail),
            (self.wire() + tail).skip(self.header.prologue_len() as int) == self.from_payload(tail),
            (self.wire() + tail).subrange(
                self.header.prologue_len() as int,
                (self.header.prologue_len() + self.data_payload.len()) as int,
            ) == self.data_payload,
            (self.wire() + tail).skip(
                (self.header.prologue_len() + self.data_payload.len()) as int,
            ) == self.from_trailer(tail),
    {
        if let Some(class_id) = self.class_id {
            class_id.round_trip(Seq::empty());
        }
        if let Some(trailer) = self.trailer {
            assert(trailer.wire().len() == 4);
        }
        assert(self.wire_header().wire().len() == 4);
        lemma_parts(
            self.wire_header().wire(),
            self.stream_id_bytes(),
            self.class_id_bytes(),
            self.tsi_bytes(),
            self.tsf_bytes(),
            self.data_payload,
            self.trailer_bytes(),
            tail,
        );
    }

    /// A packet of which nothing is lost on the wire is read back from the
    /// bytes that hold it, whatever follows them, with the packet size that
    /// it takes.
    pub proof fn round_trip(self, tail: Seq<u8>)
        requires
            self.fits_wire(),
        ensures
            VrtPacketView::decode(self.wire() + tail) == Ok::<VrtPacketView, Error>(self.sized()),
    {
        let header = self.wire_header();
        let s = self.wire() + tail;
        self.wire_len();
        self.lemma_layout(tail);
        assert(header.packet_len() == self.packet_len());
        assert(header.payload_len() == self.data_payload.len());
        header.round_trip(self.from_stream_id(tail));
        if let Some(stream_id) = self.stream_id {
            lemma_be_u32_round_trip(stream_id, self.from_class_id(tail));
        }
        if let Some(class_id) = self.class_id {
            class_id.round_trip(self.from_tsi(tail));
        }
        if let Some(tsi) = self.tsi {
            lemma_be_u32_round_trip(tsi, self.from_tsf(tail));
        }
        if let Some(tsf) = self.tsf {
            lemma_be_u64_round_trip(tsf, self.from_payload(tail));
        }
        if let Some(trailer) = self.trailer {
            trailer.round_trip(tail);
        }
        assert(VrtPacketView::read(header, s) == self.sized());
    }

    /// A packet that was parsed is one of which nothing is lost on the
    /// wire, and its header holds the packet size that the packet takes:
    /// its payload has the bytes that the packet size leaves behind the
    /// header word, the announced fields and the trailer, never fewer than
    /// none.
    pub proof fn decode_fits_wire(s: Seq<u8>)
        requires
            VrtPacketView::decode(s) is Ok,
        ensures
            ({
                let packet = VrtPacketView::decode(s).unwrap();
                &&& packet.fits_wire()
                &&& packet.sized() == packet
                &&& packet.packet_len() == packet.header.packet_len()
                &&& packet.packet_len() <= s.len()
                &&& packet.data_payload.len() == packet.header.payload_len()
                &&& packet.header.payload_len() >= 0
            }),
    {
        Header::decode_failures(s);
        let header = Header::decode(s).unwrap();
        if header.t {
            Trailer::wire_round_trip(s.skip(header.prologue_len() + header.payload_len()));
        }
    }

    /// The bytes that hold a parsed packet are the bytes that it was parsed
    /// from, as far as the packet goes, if the two reserved bits of the
    /// header word are clear in them.
    pub proof fn wire_round_trip(s: Seq<u8>)
        requires
            VrtPacketView::decode(s) is Ok,
            s[0] & 0b11 == 0,
        ensures
            VrtPacketView::decode(s).unwrap().wire() == s.subrange(
                0,
                VrtPacketView::decode(s).unwrap().packet_len() as int,
            ),
    {
        let packet = VrtPacketView::decode(s).unwrap();
        let header = packet.header;
        VrtPacketView::decode_fits_wire(s);
        Header::wire_round_trip(s);
        VrtPacketView::lemma_fields_on_wire(header, s);
        lemma_joined(
            s,
            header.class_id_offset() as int,
            header.tsi_offset() as int,
            header.tsf_offset() as int,
            header.prologue_len() as int,
            header.prologue_len() + header.payload_len(),
            header.packet_len() as int,
        );
    }

    /// The bytes of each field of a packet that was read are the bytes that
    /// it was read from.
    proof fn lemma_fields_on_wire(header: Header, s: Seq<u8>)
        requires
            header.payload_len() >= 0,
            header.packet_len() <= s.len(),
        ensures
            ({
                let packet = VrtPacketView::read(header, s);
                let payload_at = header.prologue_len() as int;
                let trailer_at = payload_at + header.payload_len();
                &&& packet.stream_id_bytes() == s.subrange(4, header.class_id_offset() as int)
                &&& packet.class_id_bytes() == s.subrange(
                    header.class_id_offset() as int,
                    header.tsi_offset() as int,
                )
                &&& packet.tsi_bytes() == s.subrange(
                    header.tsi_offset() as int,
                    header.tsf_offset() as int,
                )
                &&& packet.tsf_bytes() == s.subrange(header.tsf_offset() as int, payload_at)
                &&& packet.data_payload == s.subrange(payload_at, trailer_at)
                &&& packet.trailer_bytes() == s.subrange(trailer_at, header.packet_len() as int)
            }),
    {
        let packet = VrtPacketView::read(header, s);
        let a = header.class_id_offset() as int;
        let b = header.tsi_offset() as int;
        let c = header.tsf_offset() as int;
        let d = header.prologue_len() as int;
        let e = d + header.payload_len();
        let n = header.packet_len() as int;
        if header.has_stream_id() {
            lemma_be_u32_bytes_of_value(s.skip(4));
        }
        assert(packet.stream_id_bytes() =~= s.subrange(4, a));
        if header.c {
            ClassId::wire_round_trip(s.skip(a));
        }
        assert(packet.class_id_bytes() =~= s.subrange(a, b));
        if header.has_tsi() {
            lemma_be_u32_bytes_of_value(s.skip(b));
        }
        assert(packet.tsi_bytes() =~= s.subrange(b, c));
        if header.has_tsf() {
            lemma_be_u64_bytes_of_value(s.skip(c));
        }
        assert(packet.tsf_bytes() =~= s.subrange(c, d));
        if header.t {
            Trailer::wire_round_trip(s.skip(e));
        }
        assert(packet.trailer_bytes() =~= s.subrange(e, n));
    }

    /// Parsing the bytes that hold a parsed packet gives the packet again.
    pub proof fn reparse(s: Seq<u8>)
        requires
            VrtPacketView::decode(s) is Ok,
        ensures
            VrtPacketView::decode(VrtPacketView::decode(s).unwrap().wire()) == VrtPacketView::decode(
                s,
            ),
    {
        let packet = VrtPacketView::decode(s).unwrap();
        VrtPacketView::decode_fits_wire(s);
        packet.round_trip(Seq::empty());
        assert(packet.wire() + Seq::<u8>::empty() == packet.wire());
    }
}

/// Where eight byte strings stand one behind the other, each of them starts
/// where those before it end.
proof fn lemma_parts(
    h: Seq<u8>,
    a: Seq<u8>,
    b: Seq<u8>,
    c: Seq<u8>,
    d: Seq<u8>,
    p: Seq<u8>,
    t: Seq<u8>,
    z: Seq<u8>,
)
    ensures
        h + a + b + c + d + p + t + z == h + (a + (b + (c + (d + (p + (t + z)))))),
        (h + a + b + c + d + p + t + z).skip(h.len() as int) == a + (b + (c + (d + (p + (t
            + z))))),
        (h + a + b + c + d + p + t + z).skip((h.len() + a.len()) as int) == b + (c + (d + (p + (t
            + z)))),
        (h + a + b + c + d + p + t + z).skip((h.len() + a.len() + b.len()) as int) == c + (d + (p
            + (t + z))),
        (h + a + b + c + d + p + t + z).skip((h.len() + a.len() + b.len() + c.len()) as int) == d
            + (p + (t + z)),
        (h + a + b + c + d + p + t + z).skip(
            (h.len() + a.len() + b.len() + c.len() + d.len()) as int,
        ) == p + (t + z),
        (h + a + b + c + d + p + t + z).subrange(
            (h.len() + a.len() + b.len() + c.len() + d.len()) as int,
            (h.len() + a.len() + b.len() + c.len() + d.len() + p.len()) as int,
        ) == p,
        (h + a + b + c + d + p + t + z).skip(
            (h.len() + a.len() + b.len() + c.len() + d.len() + p.len()) as int,
        ) == t + z,
{
}

/// The parts of a byte string, each starting where the one before it ends,
/// make up the byte string as far as they go.
proof fn lemma_joined(s: Seq<u8>, a: int, b: int, c: int, d: int, e: int, n: int)
    requires
        4 <= a <= b <= c <= d <= e <= n <= s.len(),
    ensures
        s.subrange(0, 4) + s.subrange(4, a) + s.subrange(a, b) + s.subrange(b, c) + s.subrange(c, d)
            + s.subrange(d, e) + s.subrange(e, n) == s.subrange(0, n),
{
}

} // verus!
