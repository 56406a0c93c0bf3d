use vstd::prelude::*;
use vstd::std_specs::convert::TryFromSpec;

use crate::types::{ClassId, Header, Trailer};
use crate::wire::{
    be_u32_bytes, be_u32_value, be_u64_bytes, be_u64_value, put_bytes, put_u32, put_u64, take_u32,
    take_u64,
};
use crate::Error;

verus! {

/// VRT Packet
#[derive(Debug, PartialEq)]
pub struct VrtPacket<'a> {
    /// VRT Packet Header
    pub header: Header,
    /// Optional Stream Id
    pub stream_id: Option<u32>,
    /// Optional Class Id
    pub class_id: Option<ClassId>,
    /// Optional Integer-Seconds Timestamp
    pub tsi: Option<u32>,
    /// Optional Fractional-Seconds Timestamp
    pub tsf: Option<u64>,
    /// Data Payload
    pub data_payload: &'a [u8],
    /// Optional VRT Packet Trailer
    pub trailer: Option<Trailer>,
}

/// What a VRT packet holds, with its payload as a sequence of bytes.
pub struct VrtPacketView {
    /// The header word.
    pub header: Header,
    /// The stream identifier.
    pub stream_id: Option<u32>,
    /// The class identifier.
    pub class_id: Option<ClassId>,
    /// The integer-seconds timestamp.
    pub tsi: Option<u32>,
    /// The fractional-seconds timestamp.
    pub tsf: Option<u64>,
    /// The bytes of the payload.
    pub data_payload: Seq<u8>,
    /// The trailer word.
    pub trailer: Option<Trailer>,
}

impl View for VrtPacket<'_> {
    type V = VrtPacketView;

    open spec fn view(&self) -> VrtPacketView {
        VrtPacketView {
            header: self.header,
            stream_id: self.stream_id,
            class_id: self.class_id,
            tsi: self.tsi,
            tsf: self.tsf,
            data_payload: self.data_payload@,
            trailer: self.trailer,
        }
    }
}

impl VrtPacketView {
    /// Whether the packet holds the fields that its header announces, and
    /// no others, and a payload of whole words: a stream identifier exactly
    /// where the packet type carries one, a class identifier and a trailer
    /// exactly where their flags are set, and each timestamp exactly where
    /// its kind is not absent.
    pub open spec fn wf(self) -> bool {
        &&& self.stream_id is Some <==> self.header.has_stream_id()
        &&& self.class_id is Some <==> self.header.c
        &&& self.tsi is Some <==> self.header.has_tsi()
        &&& self.tsf is Some <==> self.header.has_tsf()
        &&& self.trailer is Some <==> self.header.t
        &&& self.data_payload.len() % 4 == 0
    }

    /// The number of bytes that the packet takes on the wire: the header
    /// word and the fields that the header announces, the payload, and the
    /// trailer.
    pub open spec fn packet_len(self) -> nat {
        self.header.prologue_len() + self.data_payload.len() + self.header.trailer_len()
    }

    /// The number of whole words of four bytes that the packet takes on the
    /// wire, as the header word gives it in sixteen bits; where it does not
    /// fit them, the failure is that of the conversion.
    pub open spec fn packet_size(self) -> Result<u16, Error> {
        match <u16 as TryFromSpec<usize>>::try_from_spec((self.packet_len() / 4) as usize) {
            Ok(words) => Ok(words),
            Err(e) => Err(Error::TryFromIntError(e)),
        }
    }

    /// The header word that goes out with the packet: the packet's own,
    /// with the packet size set to what the packet takes.
    pub open spec fn wire_header(self) -> Header {
        Header {
            packet_type: self.header.packet_type,
            c: self.header.c,
            t: self.header.t,
            tsi: self.header.tsi,
            tsf: self.header.tsf,
            packet_count: self.header.packet_count,
            packet_size: (self.packet_len() / 4) as u16,
        }
    }

    /// The bytes of the stream identifier: four, or none.
    pub open spec fn stream_id_bytes(self) -> Seq<u8> {
        match self.stream_id {
            Some(stream_id) => be_u32_bytes(stream_id),
            None => Seq::empty(),
        }
    }

    /// The bytes of the class identifier: eight, or none.
    pub open spec fn class_id_bytes(self) -> Seq<u8> {
        match self.class_id {
            Some(class_id) => class_id.wire(),
            None => Seq::empty(),
        }
    }

    /// The bytes of the integer-seconds timestamp: four, or none.
    pub open spec fn tsi_bytes(self) -> Seq<u8> {
        match self.tsi {
            Some(tsi) => be_u32_bytes(tsi),
            None => Seq::empty(),
        }
    }

    /// The bytes of the fractional-seconds timestamp: eight, or none.
    pub open spec fn tsf_bytes(self) -> Seq<u8> {
        match self.tsf {
            Some(tsf) => be_u64_bytes(tsf),
            None => Seq::empty(),
        }
    }

    /// The bytes of the trailer: four, or none.
    pub open spec fn trailer_bytes(self) -> Seq<u8> {
        match self.trailer {
            Some(trailer) => trailer.wire(),
            None => Seq::empty(),
        }
    }

    /// The bytes that hold the packet on the wire: the header word, the
    /// fields in their fixed order, the payload, and the trailer.
    pub open spec fn wire(self) -> Seq<u8> {
        self.wire_header().wire() + self.stream_id_bytes() + self.class_id_bytes()
            + self.tsi_bytes() + self.tsf_bytes() + self.data_payload + self.trailer_bytes()
    }

    /// The packet that the bytes `s` hold under the header `header`: each
    /// announced field read at its offset, the payload behind them, and the
    /// trailer, where one is announced, behind the payload.
    pub open spec fn read(header: Header, s: Seq<u8>) -> VrtPacketView {
        let payload_at = header.prologue_len() as int;
        let trailer_at = payload_at + header.payload_len();
        VrtPacketView {
            header,
            stream_id: if header.has_stream_id() {
                Some(be_u32_value(s.skip(4)))
            } else {
                None
            },
            class_id: if header.c {
                Some(ClassId::from_wire(s.skip(header.class_id_offset() as int)))
            } else {
                None
            },
            tsi: if header.has_tsi() {
                Some(be_u32_value(s.skip(header.tsi_offset() as int)))
            } else {
                None
            },
            tsf: if header.has_tsf() {
                Some(be_u64_value(s.skip(header.tsf_offset() as int)))
            } else {
                None
            },
            data_payload: s.subrange(payload_at, trailer_at),
            trailer: if header.t {
                Some(Trailer::from_wire(s.skip(trailer_at)))
            } else {
                None
            },
        }
    }

    /// What parsing the bytes `s` gives. The header word is parsed first,
    /// and its failure is the packet's. Then the bytes must be as many as
    /// the header's packet size says, or the failure names the number that
    /// is missing. Then the packet size must cover the header word, the
    /// announced fields and the trailer, or the payload's length is no
    /// length: the failure is that of the conversion of the negative number.
    /// Otherwise the packet is read.
    pub open spec fn decode(s: Seq<u8>) -> Result<VrtPacketView, Error> {
        match Header::decode(s) {
            Err(e) => Err(e),
            Ok(header) => if s.len() < header.packet_len() {
                Err(Error::Incomplete((header.packet_len() - s.len()) as usize))
            } else {
                match <usize as TryFromSpec<i64>>::try_from_spec(header.payload_len() as i64) {
                    Err(e) => Err(Error::TryFromIntError(e)),
                    Ok(_) => Ok(VrtPacketView::read(header, s)),
                }
            },
        }
    }

    /// Whether nothing of the packet is lost on the wire: it is well formed,
    /// the fields of its header and of its trailer fit their places, and it
    /// takes no more words than the header word can say.
    pub open spec fn fits_wire(self) -> bool {
        &&& self.wf()
        &&& self.header.wf()
        &&& self.trailer matches Some(trailer) ==> trailer.wf()
        &&& self.packet_len() <= 4 * 0xffff
    }

    /// The packet as it comes back from the wire: itself, with the packet
    /// size in its header set to what the packet takes.
    pub open spec fn sized(self) -> VrtPacketView {
        VrtPacketView {
            header: self.wire_header(),
            stream_id: self.stream_id,
            class_id: self.class_id,
            tsi: self.tsi,
            tsf: self.tsf,
            data_payload: self.data_payload,
            trailer: self.trailer,
        }
    }
}

impl<'a> VrtPacket<'a> {
    /// Parse the VRT packet
    ///
    /// Reads the packet at the front of `i` and hands it back with the
    /// bytes that follow it. The payload is the part of `i` that the
    /// header's packet size leaves between the announced fields and the
    /// trailer; it is not copied.
    pub fn parse(i: &'a [u8]) -> (r: Result<(&'a [u8], VrtPacket<'a>), Error>)
        ensures
            match VrtPacketView::decode(i@) {
                Ok(packet) => (r matches Ok((rest, found)) && found@ == packet && rest@ == i@.skip(
                    packet.header.packet_len() as int,
                )),
                Err(e) => (r matches Err(failure) && failure == e),
            },
            Header::decode(i@) matches Ok(header) ==> (i@.len() < header.packet_len() ==> (
            r matches Err(failure) && failure == Error::Incomplete(
                (header.packet_len() - i@.len()) as usize,
            ))),
            r matches Ok((_, found)) ==> found@.fits_wire() && found@.packet_len()
                == found.header.packet_len() && found@.data_payload.len()
                == found.header.payload_len(),
            r matches Err(failure) ==> failure is Incomplete || failure is PktType
                || failure is TryFromIntError,
    {
        proof {
            Header::decode_failures(i@);
            if VrtPacketView::decode(i@) is Ok {
                VrtPacketView::decode_fits_wire(i@);
            }
        }
        let (rest, header) = Header::parse(i)?;

        let expected_size = header.packet_size as usize * 4;
        if i.len() < expected_size {
            return Err(Error::Incomplete(expected_size - i.len()));
        }
        // Track the mandatory and optional fields to get the payload length
        let payload_len = header.payload_size()?;

        let (rest, stream_id) = read_stream_id(&header, rest, Ghost(i@))?;
        let (rest, class_id) = read_class_id(&header, rest, Ghost(i@))?;
        let (rest, tsi) = read_tsi(&header, rest, Ghost(i@))?;
        let (rest, tsf) = read_tsf(&header, rest, Ghost(i@))?;
        let (rest, data_payload) = read_payload(&header, rest, payload_len, Ghost(i@));
        let (rest, trailer) = read_trailer(&header, rest, Ghost(i@))?;

        Ok((rest, VrtPacket { header, stream_id, class_id, tsi, tsf, data_payload, trailer }))
    }
}

impl VrtPacket<'_> {
    /// Tells whether the packet holds the fields that its header announces,
    /// and no others, and a payload of whole words.
    pub fn is_well_formed(&self) -> (r: bool)
        ensures
            r == self@.wf(),
    {
        self.stream_id.is_some() == self.header.packet_type.has_stream_id()
            && self.class_id.is_some() == self.header.c && self.tsi.is_some()
            == self.header.tsi.is_present() && self.tsf.is_some() == self.header.tsf.is_present()
            && self.trailer.is_some() == self.header.t && self.data_payload.len() % 4 == 0
    }

    /// Tells how many whole words of four bytes the header word, the fields
    /// that the header announces, the payload and the trailer take, or that
    /// they are more than the header word can say.
    pub fn packet_size(&self) -> (r: Result<u16, Error>)
        ensures
            r == self@.packet_size(),
            r is Ok <==> self@.packet_len() / 4 <= 0xffff,
            r matches Ok(words) ==> words == self@.packet_len() / 4,
    {
        let mut words: usize = 1;
        if self.header.packet_type.has_stream_id() {
            words += 1;
        }
        if self.header.c {
            words += 2;
        }
        if self.header.tsi.is_present() {
            words += 1;
        }
        if self.header.tsf.is_present() {
            words += 2;
        }
        if self.header.t {
            words += 1;
        }
        words += self.data_payload.len() / 4;
        match u16::try_from(words) {
            Ok(words) => Ok(words),
            Err(e) => Err(Error::from(e)),
        }
    }

    /// Serialize the VRT packet
    ///
    /// Writes the packet over the front of `buffer` and says how many bytes
    /// were written: the header word, the fields in their fixed order, the
    /// payload, and the trailer. The packet size that goes out is the one
    /// that the packet takes, not the one that its header holds. A packet
    /// of more words than the header word can say, and a buffer that is too
    /// short, leave the buffer as it is. The packet has to be well formed:
    /// `is_well_formed` tells.
    pub fn serialize(&self, buffer: &mut [u8]) -> (r: Result<usize, Error>)
        requires
            self@.wf(),
        ensures
            match self@.packet_size() {
                Err(e) => r == Err::<usize, Error>(e) && final(buffer)@ == old(buffer)@,
                Ok(_) => if old(buffer)@.len() < self@.packet_len() {
                    r == Err::<usize, Error>(Error::BufferFull) && final(buffer)@ == old(buffer)@
                } else {
                    r == Ok::<usize, Error>(self@.packet_len() as usize) && final(buffer)@
                        == self@.wire() + old(buffer)@.skip(self@.packet_len() as int)
                },
            },
    {
        let packet_size = self.packet_size()?;
        if buffer.len() < packet_size as usize * 4 {
            return Err(Error::BufferFull);
        }
        let header = Header {
            packet_type: self.header.packet_type,
            c: self.header.c,
            t: self.header.t,
            tsi: self.header.tsi,
            tsf: self.header.tsf,
            packet_count: self.header.packet_count,
            packet_size,
        };
        Ok(self.write(&header, buffer))
    }

    /// Writes the header word `header` over the front of `buffer`, and the
    /// packet's fields, payload and trailer behind it, and says how many
    /// bytes that made.
    fn write(&self, header: &Header, buffer: &mut [u8]) -> (at: usize)
        requires
            self@.wf(),
            *header == self@.wire_header(),
            self@.packet_len() <= old(buffer).len(),
        ensures
            at == self@.packet_len(),
            final(buffer)@ == self@.wire() + old(buffer)@.skip(at as int),
    {
        let ghost before = buffer@;
        let ghost packet = self@;

        let _ = header.serialize(buffer);
        let ghost done = header.wire();
        assert(done.len() == 4);
        let at = write_u32(self.stream_id, buffer, 4, Ghost(done), Ghost(before));
        let ghost done = done + packet.stream_id_bytes();
        assert(at == self.header.class_id_offset());
        let at = write_class_id(self.class_id, buffer, at, Ghost(done), Ghost(before));
        let ghost done = done + packet.class_id_bytes();
        assert(at == self.header.tsi_offset());
        let at = write_u32(self.tsi, buffer, at, Ghost(done), Ghost(before));
        let ghost done = done + packet.tsi_bytes();
        assert(at == self.header.tsf_offset());
        let at = write_u64(self.tsf, buffer, at, Ghost(done), Ghost(before));
        let ghost done = done + packet.tsf_bytes();
        assert(at == self.header.prologue_len());
        let at = write_payload(self.data_payload, buffer, at, Ghost(done), Ghost(before));
        let ghost done = done + packet.data_payload;
        write_trailer(self.trailer, buffer, at, Ghost(done), Ghost(before))
    }
}

/// Reads the stream identifier behind the header word if `header` announces
/// one. `i` is what is left of the packet's bytes `whole` behind the header
/// word.
fn read_stream_id<'a>(header: &Header, i: &'a [u8], Ghost(whole): Ghost<Seq<u8>>) -> (r: Result<
    (&'a [u8], Option<u32>),
    Error,
>)
    requires
        i@ == whole.skip(4),
        header.class_id_offset() <= whole.len(),
    ensures
        r matches Ok((rest, found)) && rest@ == whole.skip(header.class_id_offset() as int)
            && found == VrtPacketView::read(*header, whole).stream_id,
{
    if header.packet_type.has_stream_id() {
        let (rest, stream_id) = take_u32(i)?;
        assert(rest@ == whole.skip(8));
        Ok((rest, Some(stream_id)))
    } else {
        Ok((i, None))
    }
}

/// Reads the class identifier if `header` announces one. `i` is what is
/// left of the packet's bytes `whole` where the class identifier starts.
fn read_class_id<'a>(header: &Header, i: &'a [u8], Ghost(whole): Ghost<Seq<u8>>) -> (r: Result<
    (&'a [u8], Option<ClassId>),
    Error,
>)
    requires
        i@ == whole.skip(header.class_id_offset() as int),
        header.tsi_offset() <= whole.len(),
    ensures
        r matches Ok((rest, found)) && rest@ == whole.skip(header.tsi_offset() as int) && found
            == VrtPacketView::read(*header, whole).class_id,
{
    if header.c {
        let (rest, class_id) = ClassId::parse(i)?;
        assert(rest@ == whole.skip(header.tsi_offset() as int));
        Ok((rest, Some(class_id)))
    } else {
        Ok((i, None))
    }
}

/// Reads the integer-seconds timestamp if `header` announces one. `i` is
/// what is left of the packet's bytes `whole` where the timestamp starts.
fn read_tsi<'a>(header: &Header, i: &'a [u8], Ghost(whole): Ghost<Seq<u8>>) -> (r: Result<
    (&'a [u8], Option<u32>),
    Error,
>)
    requires
        i@ == whole.skip(header.tsi_offset() as int),
        header.tsf_offset() <= whole.len(),
    ensures
        r matches Ok((rest, found)) && rest@ == whole.skip(header.tsf_offset() as int) && found
            == VrtPacketView::read(*header, whole).tsi,
{
    if header.tsi.is_present() {
        let (rest, tsi) = take_u32(i)?;
        assert(rest@ == whole.skip(header.tsf_offset() as int));
        Ok((rest, Some(tsi)))
    } else {
        Ok((i, None))
    }
}

/// Reads the fractional-seconds timestamp if `header` announces one. `i` is
/// what is left of the packet's bytes `whole` where the timestamp starts.
fn read_tsf<'a>(header: &Header, i: &'a [u8], Ghost(whole): Ghost<Seq<u8>>) -> (r: Result<
    (&'a [u8], Option<u64>),
    Error,
>)
    requires
        i@ == whole.skip(header.tsf_offset() as int),
        header.prologue_len() <= whole.len(),
    ensures
        r matches Ok((rest, found)) && rest@ == whole.skip(header.prologue_len() as int) && found
            == VrtPacketView::read(*header, whole).tsf,
{
    if header.tsf.is_present() {
        let (rest, tsf) = take_u64(i)?;
        assert(rest@ == whole.skip(header.prologue_len() as int));
        Ok((rest, Some(tsf)))
    } else {
        Ok((i, None))
    }
}

/// Takes the payload of `payload_len` bytes off the front of `i`, which is
/// what is left of the packet's bytes `whole` where the payload starts.
fn read_payload<'a>(
    header: &Header,
    i: &'a [u8],
    payload_len: usize,
    Ghost(whole): Ghost<Seq<u8>>,
) -> (r: (&'a [u8], &'a [u8]))
    requires
        i@ == whole.skip(header.prologue_len() as int),
        payload_len == header.payload_len(),
        header.prologue_len() + payload_len <= whole.len(),
    ensures
        r.0@ == whole.skip(header.prologue_len() + header.payload_len()),
        r.1@ == VrtPacketView::read(*header, whole).data_payload,
{
    let (data_payload, rest) = i.split_at(payload_len);
    assert(data_payload@ == whole.subrange(
        header.prologue_len() as int,
        header.prologue_len() + header.payload_len(),
    ));
    assert(rest@ == whole.skip(header.prologue_len() + header.payload_len()));
    (rest, data_payload)
}

/// Reads the trailer if `header` announces one. `i` is what is left of the
/// packet's bytes `whole` behind the payload.
fn read_trailer<'a>(header: &Header, i: &'a [u8], Ghost(whole): Ghost<Seq<u8>>) -> (r: Result<
    (&'a [u8], Option<Trailer>),
    Error,
>)
    requires
        header.payload_len() >= 0,
        i@ == whole.skip(header.prologue_len() + header.payload_len()),
        header.packet_len() <= whole.len(),
    ensures
        r matches Ok((rest, found)) && rest@ == whole.skip(header.packet_len() as int) && found
            == VrtPacketView::read(*header, whole).trailer,
{
    if header.t {
        let (rest, trailer) = Trailer::parse(i)?;
        assert(rest@ == whole.skip(header.packet_len() as int));
        Ok((rest, Some(trailer)))
    } else {
        Ok((i, None))
    }
}

/// Writes the four bytes of `field`, if there is one, into `buffer` from
/// `at` on, and says where the next field goes. `done` is what the packet
/// has written so far into a buffer that held `before`.
fn write_u32(
    field: Option<u32>,
    buffer: &mut [u8],
    at: usize,
    Ghost(done): Ghost<Seq<u8>>,
    Ghost(before): Ghost<Seq<u8>>,
) -> (next: usize)
    requires
        at == done.len(),
        at + (if field is Some { 4nat } else { 0nat }) <= old(buffer).len(),
        old(buffer)@ == done + before.skip(at as int),
        old(buffer)@.len() == before.len(),
    ensures
        next == at + (if field is Some { 4nat } else { 0nat }),
        final(buffer)@ == done + (match field {
            Some(v) => be_u32_bytes(v),
            None => Seq::empty(),
        }) + before.skip(next as int),
{
    match field {
        Some(v) => {
            let (_, tail) = buffer.split_at_mut(at);
            put_u32(tail, v);
            assert(buffer@ =~= done + be_u32_bytes(v) + before.skip(at + 4));
            at + 4
        },
        None => {
            assert(buffer@ =~= done + Seq::<u8>::empty() + before.skip(at as int));
            at
        },
    }
}

/// Writes the eight bytes of `field`, if there is one, into `buffer` from
/// `at` on, and says where the next field goes. `done` is what the packet
/// has written so far into a buffer that held `before`.
fn write_u64(
    field: Option<u64>,
    buffer: &mut [u8],
    at: usize,
    Ghost(done): Ghost<Seq<u8>>,
    Ghost(before): Ghost<Seq<u8>>,
) -> (next: usize)
    requires
        at == done.len(),
        at + (if field is Some { 8nat } else { 0nat }) <= old(buffer).len(),
        old(buffer)@ == done + before.skip(at as int),
        old(buffer)@.len() == before.len(),
    ensures
        next == at + (if field is Some { 8nat } else { 0nat }),
        final(buffer)@ == done + (match field {
            Some(v) => be_u64_bytes(v),
            None => Seq::empty(),
        }) + before.skip(next as int),
{
    match field {
        Some(v) => {
            let (_, tail) = buffer.split_at_mut(at);
            put_u64(tail, v);
            assert(buffer@ =~= done + be_u64_bytes(v) + before.skip(at + 8));
            at + 8
        },
        None => {
            assert(buffer@ =~= done + Seq::<u8>::empty() + before.skip(at as int));
            at
        },
    }
}

/// Writes the class identifier, if there is one, into `buffer` from `at`
/// on, and says where the next field goes. `done` is what the packet has
/// written so far into a buffer that held `before`.
fn write_class_id(
    field: Option<ClassId>,
    buffer: &mut [u8],
    at: usize,
    Ghost(done): Ghost<Seq<u8>>,
    Ghost(before): Ghost<Seq<u8>>,
) -> (next: usize)
    requires
        at == done.len(),
        at + (if field is Some { 8nat } else { 0nat }) <= old(buffer).len(),
        old(buffer)@ == done + before.skip(at as int),
        old(buffer)@.len() == before.len(),
    ensures
        next == at + (if field is Some { 8nat } else { 0nat }),
        final(buffer)@ == done + (match field {
            Some(class_id) => class_id.wire(),
            None => Seq::empty(),
        }) + before.skip(next as int),
{
    match field {
        Some(class_id) => {
            let (_, tail) = buffer.split_at_mut(at);
            let _ = class_id.serialize(tail);
            assert(buffer@ =~= done + class_id.wire() + before.skip(at + 8));
            at + 8
        },
        None => {
            assert(buffer@ =~= done + Seq::<u8>::empty() + before.skip(at as int));
            at
        },
    }
}

/// Copies the payload into `buffer` from `at` on, and says where the
/// trailer goes. `done` is what the packet has written so far into a buffer
/// that held `before`.
fn write_payload(
    payload: &[u8],
    buffer: &mut [u8],
    at: usize,
    Ghost(done): Ghost<Seq<u8>>,
    Ghost(before): Ghost<Seq<u8>>,
) -> (next: usize)
    requires
        at == done.len(),
        at + payload@.len() <= old(buffer).len(),
        old(buffer)@ == done + before.skip(at as int),
        old(buffer)@.len() == before.len(),
    ensures
        next == at + payload@.len(),
        final(buffer)@ == done + payload@ + before.skip(next as int),
{
    let (_, tail) = buffer.split_at_mut(at);
    put_bytes(tail, payload);
    assert(buffer@ =~= done + payload@ + before.skip(at + payload@.len()));
    at + payload.len()
}

/// Writes the trailer, if there is one, into `buffer` from `at` on, and
/// says where the packet ends. `done` is what the packet has written so far
/// into a buffer that held `before`.
fn write_trailer(
    field: Option<Trailer>,
    buffer: &mut [u8],
    at: usize,
    Ghost(done): Ghost<Seq<u8>>,
    Ghost(before): Ghost<Seq<u8>>,
) -> (next: usize)
    requires
        at == done.len(),
        at + (if field is Some { 4nat } else { 0nat }) <= old(buffer).len(),
        old(buffer)@ == done + before.skip(at as int),
        old(buffer)@.len() == before.len(),
    ensures
        next == at + (if field is Some { 4nat } else { 0nat }),
        final(buffer)@ == done + (match field {
            Some(trailer) => trailer.wire(),
            None => Seq::empty(),
        }) + before.skip(next as int),
{
    match field {
        Some(trailer) => {
            let (_, tail) = buffer.split_at_mut(at);
            let _ = trailer.serialize(tail);
            assert(buffer@ =~= done + trailer.wire() + before.skip(at + 4));
            at + 4
        },
        None => {
            assert(buffer@ =~= done + Seq::<u8>::empty() + before.skip(at as int));
            at
        },
    }
}

} // verus!
