//! Single bits of a byte: testing one, placing one, and packing eight flags
//! into a byte, most significant first.

use vstd::prelude::*;

verus! {

/// Whether bit `pos` of `byte` is set; bit 0 is the least significant.
pub open spec fn bit(byte: u8, pos: u8) -> bool {
    (byte >> pos) & 1 == 1
}

/// The byte in which bit `pos` is set if `set` holds, and no other bit is.
pub open spec fn flag(set: bool, pos: u8) -> u8 {
    if set {
        1u8 << pos
    } else {
        0u8
    }
}

/// The byte whose bits 7 down to 0 are the flags `f7` to `f0`.
pub open spec fn pack(
    f7: bool,
    f6: bool,
    f5: bool,
    f4: bool,
    f3: bool,
    f2: bool,
    f1: bool,
    f0: bool,
) -> u8 {
    flag(f7, 7) | flag(f6, 6) | flag(f5, 5) | flag(f4, 4) | flag(f3, 3) | flag(f2, 2) | flag(f1, 1)
        | flag(f0, 0)
}

/// Reads a byte that holds a single bit as a truth value.
pub fn u8_to_bool(v: u8) -> (r: bool)
    requires
        v <= 1,
    ensures
        r == (v == 1),
{
    v == 1
}

/// Tests bit `pos` of `byte`.
pub fn get_bit(byte: u8, pos: u8) -> (r: bool)
    requires
        pos < 8,
    ensures
        r == bit(byte, pos),
{
    assert((byte >> pos) & 1 <= 1) by (bit_vector);
    u8_to_bool((byte >> pos) & 0x01)
}

/// Places `set` at bit `pos` of an otherwise empty byte.
pub fn set_bit(set: bool, pos: u8) -> (r: u8)
    requires
        pos < 8,
    ensures
        r == flag(set, pos),
{
    if set {
        1u8 << pos
    } else {
        0
    }
}

/// Packs eight flags into one byte, `f7` into the most significant bit.
pub fn pack_bits(
    f7: bool,
    f6: bool,
    f5: bool,
    f4: bool,
    f3: bool,
    f2: bool,
    f1: bool,
    f0: bool,
) -> (r: u8)
    ensures
        r == pack(f7, f6, f5, f4, f3, f2, f1, f0),
{
    set_bit(f7, 7) | set_bit(f6, 6) | set_bit(f5, 5) | set_bit(f4, 4) | set_bit(f3, 3) | set_bit(
        f2,
        2,
    ) | set_bit(f1, 1) | set_bit(f0, 0)
}

/// Each flag packed into a byte is read back from its own bit.
pub proof fn lemma_pack_bits(
    f7: bool,
    f6: bool,
    f5: bool,
    f4: bool,
    f3: bool,
    f2: bool,
    f1: bool,
    f0: bool,
)
    ensures
        bit(pack(f7, f6, f5, f4, f3, f2, f1, f0), 7) == f7,
        bit(pack(f7, f6, f5, f4, f3, f2, f1, f0), 6) == f6,
        bit(pack(f7, f6, f5, f4, f3, f2, f1, f0), 5) == f5,
        bit(pack(f7, f6, f5, f4, f3, f2, f1, f0), 4) == f4,
        bit(pack(f7, f6, f5, f4, f3, f2, f1, f0), 3) == f3,
        bit(pack(f7, f6, f5, f4, f3, f2, f1, f0), 2) == f2,
        bit(pack(f7, f6, f5, f4, f3, f2, f1, f0), 1) == f1,
        bit(pack(f7, f6, f5, f4, f3, f2, f1, f0), 0) == f0,
{
    assert(bit(pack(f7, f6, f5, f4, f3, f2, f1, f0), 7) == f7 && bit(
        pack(f7, f6, f5, f4, f3, f2, f1, f0),
        6,
    ) == f6 && bit(pack(f7, f6, f5, f4, f3, f2, f1, f0), 5) == f5 && bit(
        pack(f7, f6, f5, f4, f3, f2, f1, f0),
        4,
    ) == f4 && bit(pack(f7, f6, f5, f4, f3, f2, f1, f0), 3) == f3 && bit(
        pack(f7, f6, f5, f4, f3, f2, f1, f0),
        2,
    ) == f2 && bit(pack(f7, f6, f5, f4, f3, f2, f1, f0), 1) == f1 && bit(
        pack(f7, f6, f5, f4, f3, f2, f1, f0),
        0,
    ) == f0) by (bit_vector);
}

/// The bits of a byte, packed again, give the byte.
pub proof fn lemma_unpack_bits(byte: u8)
    ensures
        pack(
            bit(byte, 7),
            bit(byte, 6),
            bit(byte, 5),
            bit(byte, 4),
            bit(byte, 3),
            bit(byte, 2),
            bit(byte, 1),
            bit(byte, 0),
        ) == byte,
{
    assert(pack(
        bit(byte, 7),
        bit(byte, 6),
        bit(byte, 5),
        bit(byte, 4),
        bit(byte, 3),
        bit(byte, 2),
        bit(byte, 1),
        bit(byte, 0),
    ) == byte) by (bit_vector);
}

} // verus!
