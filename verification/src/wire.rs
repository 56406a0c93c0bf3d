//! Big-endian integers at the front of a byte string: what they are worth,
//! how they are read, and how they are written.

use vstd::prelude::*;

use crate::Error;

verus! {

/// The number that the first two bytes of `s` spell, most significant first.
pub open spec fn be_u16_value(s: Seq<u8>) -> u16 {
    (s[0] as int * 0x100 + s[1] as int) as u16
}

/// The number that the first four bytes of `s` spell, most significant first.
pub open spec fn be_u32_value(s: Seq<u8>) -> u32 {
    (s[0] as int * 0x100_0000 + s[1] as int * 0x1_0000 + s[2] as int * 0x100 + s[3] as int) as u32
}

/// The number that the first eight bytes of `s` spell, most significant first.
pub open spec fn be_u64_value(s: Seq<u8>) -> u64 {
    (s[0] as int * 0x100_0000_0000_0000 + s[1] as int * 0x1_0000_0000_0000 + s[2] as int
        * 0x100_0000_0000 + s[3] as int * 0x1_0000_0000 + s[4] as int * 0x100_0000 + s[5] as int
        * 0x1_0000 + s[6] as int * 0x100 + s[7] as int) as u64
}

/// The two bytes that spell `v`, most significant first.
pub open spec fn be_u16_bytes(v: u16) -> Seq<u8> {
    seq![(v / 0x100) as u8, (v % 0x100) as u8]
}

/// The four bytes that spell `v`, most significant first.
pub open spec fn be_u32_bytes(v: u32) -> Seq<u8> {
    seq![
        (v / 0x100_0000) as u8,
        (v / 0x1_0000 % 0x100) as u8,
        (v / 0x100 % 0x100) as u8,
        (v % 0x100) as u8,
    ]
}

/// The eight bytes that spell `v`, most significant first.
pub open spec fn be_u64_bytes(v: u64) -> Seq<u8> {
    seq![
        (v / 0x100_0000_0000_0000) as u8,
        (v / 0x1_0000_0000_0000 % 0x100) as u8,
        (v / 0x100_0000_0000 % 0x100) as u8,
        (v / 0x1_0000_0000 % 0x100) as u8,
        (v / 0x100_0000 % 0x100) as u8,
        (v / 0x1_0000 % 0x100) as u8,
        (v / 0x100 % 0x100) as u8,
        (v % 0x100) as u8,
    ]
}

/// A two-byte number is read back from the bytes that spell it, whatever
/// follows them.
pub proof fn lemma_be_u16_round_trip(v: u16, tail: Seq<u8>)
    ensures
        be_u16_bytes(v).len() == 2,
        be_u16_value(be_u16_bytes(v) + tail) == v,
{
}

/// A four-byte number is read back from the bytes that spell it, whatever
/// follows them.
pub proof fn lemma_be_u32_round_trip(v: u32, tail: Seq<u8>)
    ensures
        be_u32_bytes(v).len() == 4,
        be_u32_value(be_u32_bytes(v) + tail) == v,
{
    let q1 = v / 0x100;
    let q2 = q1 / 0x100;
    let q3 = q2 / 0x100;
    assert(q2 == v / 0x1_0000);
    assert(q3 == v / 0x100_0000);
}

/// An eight-byte number is read back from the bytes that spell it, whatever
/// follows them.
pub proof fn lemma_be_u64_round_trip(v: u64, tail: Seq<u8>)
    ensures
        be_u64_bytes(v).len() == 8,
        be_u64_value(be_u64_bytes(v) + tail) == v,
{
    let q1 = v / 0x100;
    let q2 = q1 / 0x100;
    let q3 = q2 / 0x100;
    let q4 = q3 / 0x100;
    let q5 = q4 / 0x100;
    let q6 = q5 / 0x100;
    let q7 = q6 / 0x100;
    assert(q2 == v / 0x1_0000);
    assert(q3 == v / 0x100_0000);
    assert(q4 == v / 0x1_0000_0000);
    assert(q5 == v / 0x100_0000_0000);
    assert(q6 == v / 0x1_0000_0000_0000);
    assert(q7 == v / 0x100_0000_0000_0000);
}

/// The two bytes at the front of `s` are those that spell the number read
/// from them.
pub proof fn lemma_be_u16_bytes_of_value(s: Seq<u8>)
    requires
        s.len() >= 2,
    ensures
        be_u16_bytes(be_u16_value(s)) == s.subrange(0, 2),
{
    let v = be_u16_value(s);
    let p2: int = s[0] * 0x100 + s[1];
    assert(v == p2);
    assert(p2 / 0x100 == s[0] && p2 % 0x100 == s[1]);
    assert(be_u16_bytes(v) =~= s.subrange(0, 2));
}

/// The four bytes at the front of `s` are those that spell the number read
/// from them.
pub proof fn lemma_be_u32_bytes_of_value(s: Seq<u8>)
    requires
        s.len() >= 4,
    ensures
        be_u32_bytes(be_u32_value(s)) == s.subrange(0, 4),
{
    let v = be_u32_value(s);
    let p1: int = s[0] as int;
    let p2: int = p1 * 0x100 + s[1];
    let p3: int = p2 * 0x100 + s[2];
    let p4: int = p3 * 0x100 + s[3];
    assert(v == p4);
    assert(p4 / 0x100 == p3 && p4 % 0x100 == s[3]);
    assert(p3 / 0x100 == p2 && p3 % 0x100 == s[2]);
    assert(p2 / 0x100 == p1 && p2 % 0x100 == s[1]);
    assert(v / 0x100 == p3);
    assert(v / 0x1_0000 == p2);
    assert(v / 0x100_0000 == p1);
    assert(be_u32_bytes(v) =~= s.subrange(0, 4));
}

/// The eight bytes at the front of `s` are those that spell the number read
/// from them.
pub proof fn lemma_be_u64_bytes_of_value(s: Seq<u8>)
    requires
        s.len() >= 8,
    ensures
        be_u64_bytes(be_u64_value(s)) == s.subrange(0, 8),
{
    let v = be_u64_value(s);
    let p1: int = s[0] as int;
    let p2: int = p1 * 0x100 + s[1];
    let p3: int = p2 * 0x100 + s[2];
    let p4: int = p3 * 0x100 + s[3];
    let p5: int = p4 * 0x100 + s[4];
    let p6: int = p5 * 0x100 + s[5];
    let p7: int = p6 * 0x100 + s[6];
    let p8: int = p7 * 0x100 + s[7];
    assert(v == p8);
    assert(p8 / 0x100 == p7 && p8 % 0x100 == s[7]);
    assert(p7 / 0x100 == p6 && p7 % 0x100 == s[6]);
    assert(p6 / 0x100 == p5 && p6 % 0x100 == s[5]);
    assert(p5 / 0x100 == p4 && p5 % 0x100 == s[4]);
    assert(p4 / 0x100 == p3 && p4 % 0x100 == s[3]);
    assert(p3 / 0x100 == p2 && p3 % 0x100 == s[2]);
    assert(p2 / 0x100 == p1 && p2 % 0x100 == s[1]);
    assert(v / 0x100 == p7);
    assert(v / 0x1_0000 == p6);
    assert(v / 0x100_0000 == p5);
    assert(v / 0x1_0000_0000 == p4);
    assert(v / 0x100_0000_0000 == p3);
    assert(v / 0x1_0000_0000_0000 == p2);
    assert(v / 0x100_0000_0000_0000 == p1);
    assert(be_u64_bytes(v) =~= s.subrange(0, 8));
}

/// Calls `nom::number::streaming::be_u8`, which takes one byte off the front
/// of its input. The claim: a value comes back exactly when `i` holds a byte;
/// it is that byte, and what is left is `i` without it.
#[verifier::external_body]
fn be_u8(i: &[u8]) -> (r: Option<(&[u8], u8)>)
    ensures
        r is Some <==> i@.len() >= 1,
        r matches Some((rest, v)) ==> rest@ == i@.skip(1) && v == i@[0],
{
    nom::number::streaming::be_u8::<&[u8], nom::error::Error<&[u8]>>(i).ok()
}

/// Calls `nom::number::streaming::be_u16`, which takes a big-endian number of
/// two bytes off the front of its input. The claim: a value comes back
/// exactly when `i` holds two bytes; it is the number they spell, and what
/// is left is `i` without them.
#[verifier::external_body]
fn be_u16(i: &[u8]) -> (r: Option<(&[u8], u16)>)
    ensures
        r is Some <==> i@.len() >= 2,
        r matches Some((rest, v)) ==> rest@ == i@.skip(2) && v == be_u16_value(i@),
{
    nom::number::streaming::be_u16::<&[u8], nom::error::Error<&[u8]>>(i).ok()
}

/// Calls `nom::number::streaming::be_u32`, which takes a big-endian number of
/// four bytes off the front of its input. The claim: a value comes back
/// exactly when `i` holds four bytes; it is the number they spell, and what
/// is left is `i` without them.
#[verifier::external_body]
fn be_u32(i: &[u8]) -> (r: Option<(&[u8], u32)>)
    ensures
        r is Some <==> i@.len() >= 4,
        r matches Some((rest, v)) ==> rest@ == i@.skip(4) && v == be_u32_value(i@),
{
    nom::number::streaming::be_u32::<&[u8], nom::error::Error<&[u8]>>(i).ok()
}

/// Calls `nom::number::streaming::be_u64`, which takes a big-endian number of
/// eight bytes off the front of its input. The claim: a value comes back
/// exactly when `i` holds eight bytes; it is the number they spell, and what
/// is left is `i` without them.
#[verifier::external_body]
fn be_u64(i: &[u8]) -> (r: Option<(&[u8], u64)>)
    ensures
        r is Some <==> i@.len() >= 8,
        r matches Some((rest, v)) ==> rest@ == i@.skip(8) && v == be_u64_value(i@),
{
    nom::number::streaming::be_u64::<&[u8], nom::error::Error<&[u8]>>(i).ok()
}

/// Takes one byte off the front of `i`, or says that one byte is missing.
pub fn take_u8(i: &[u8]) -> (r: Result<(&[u8], u8), Error>)
    ensures
        match r {
            Ok((rest, v)) => i@.len() >= 1 && rest@ == i@.skip(1) && v == i@[0],
            Err(e) => i@.len() < 1 && e == Error::Incomplete((1 - i@.len()) as usize),
        },
{
    match be_u8(i) {
        Some(found) => Ok(found),
        None => Err(Error::Incomplete(1 - i.len())),
    }
}

/// Takes a big-endian number of two bytes off the front of `i`, or says how
/// many bytes are missing.
pub fn take_u16(i: &[u8]) -> (r: Result<(&[u8], u16), Error>)
    ensures
        match r {
            Ok((rest, v)) => i@.len() >= 2 && rest@ == i@.skip(2) && v == be_u16_value(i@),
            Err(e) => i@.len() < 2 && e == Error::Incomplete((2 - i@.len()) as usize),
        },
{
    match be_u16(i) {
        Some(found) => Ok(found),
        None => Err(Error::Incomplete(2 - i.len())),
    }
}

/// Takes a big-endian number of four bytes off the front of `i`, or says how
/// many bytes are missing.
pub fn take_u32(i: &[u8]) -> (r: Result<(&[u8], u32), Error>)
    ensures
        match r {
            Ok((rest, v)) => i@.len() >= 4 && rest@ == i@.skip(4) && v == be_u32_value(i@),
            Err(e) => i@.len() < 4 && e == Error::Incomplete((4 - i@.len()) as usize),
        },
{
    match be_u32(i) {
        Some(found) => Ok(found),
        None => Err(Error::Incomplete(4 - i.len())),
    }
}

/// Takes a big-endian number of eight bytes off the front of `i`, or says
/// how many bytes are missing.
pub fn take_u64(i: &[u8]) -> (r: Result<(&[u8], u64), Error>)
    ensures
        match r {
            Ok((rest, v)) => i@.len() >= 8 && rest@ == i@.skip(8) && v == be_u64_value(i@),
            Err(e) => i@.len() < 8 && e == Error::Incomplete((8 - i@.len()) as usize),
        },
{
    match be_u64(i) {
        Some(found) => Ok(found),
        None => Err(Error::Incomplete(8 - i.len())),
    }
}

/// Writes `v` over the first two bytes of `buffer`, most significant first.
pub fn put_u16(buffer: &mut [u8], v: u16)
    requires
        old(buffer)@.len() >= 2,
    ensures
        final(buffer)@ == be_u16_bytes(v) + old(buffer)@.skip(2),
{
    buffer[0] = (v / 0x100) as u8;
    buffer[1] = (v % 0x100) as u8;
}

/// Writes `v` over the first four bytes of `buffer`, most significant first.
pub fn put_u32(buffer: &mut [u8], v: u32)
    requires
        old(buffer)@.len() >= 4,
    ensures
        final(buffer)@ == be_u32_bytes(v) + old(buffer)@.skip(4),
{
    buffer[0] = (v / 0x100_0000) as u8;
    buffer[1] = (v / 0x1_0000 % 0x100) as u8;
    buffer[2] = (v / 0x100 % 0x100) as u8;
    buffer[3] = (v % 0x100) as u8;
}

/// Writes `v` over the first eight bytes of `buffer`, most significant first.
pub fn put_u64(buffer: &mut [u8], v: u64)
    requires
        old(buffer)@.len() >= 8,
    ensures
        final(buffer)@ == be_u64_bytes(v) + old(buffer)@.skip(8),
{
    buffer[0] = (v / 0x100_0000_0000_0000) as u8;
    buffer[1] = (v / 0x1_0000_0000_0000 % 0x100) as u8;
    buffer[2] = (v / 0x100_0000_0000 % 0x100) as u8;
    buffer[3] = (v / 0x1_0000_0000 % 0x100) as u8;
    buffer[4] = (v / 0x100_0000 % 0x100) as u8;
    buffer[5] = (v / 0x1_0000 % 0x100) as u8;
    buffer[6] = (v / 0x100 % 0x100) as u8;
    buffer[7] = (v % 0x100) as u8;
}

/// Copies `bytes` over the front of `buffer`.
pub fn put_bytes(buffer: &mut [u8], bytes: &[u8])
    requires
        bytes@.len() <= old(buffer)@.len(),
    ensures
        final(buffer)@ == bytes@ + old(buffer)@.skip(bytes@.len() as int),
{
    let mut k: usize = 0;
    while k < bytes.len()
        invariant
            k <= bytes@.len() <= buffer@.len(),
            buffer@.len() == old(buffer)@.len(),
            forall|j: int| 0 <= j < k ==> buffer@[j] == bytes@[j],
            forall|j: int| k <= j < buffer@.len() ==> buffer@[j] == old(buffer)@[j],
        decreases bytes@.len() - k,
    {
        buffer[k] = bytes[k];
        k += 1;
    }
    assert(buffer@ =~= bytes@ + old(buffer)@.skip(bytes@.len() as int));
}

} // verus!
