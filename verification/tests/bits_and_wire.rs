use vrt::bits::{get_bit, pack_bits, set_bit, u8_to_bool};
use vrt::wire::{put_bytes, put_u16, put_u32, put_u64, take_u16, take_u32, take_u64, take_u8};
use vrt::Error;

#[test]
fn u8_to_bool_reads_one_bit() {
    assert!(!u8_to_bool(0));
    assert!(u8_to_bool(1));
}

#[test]
fn get_bit_tests_each_bit() {
    for pos in 0u8..8 {
        assert!(get_bit(1 << pos, pos));
        assert!(!get_bit(!(1 << pos), pos));
    }
    assert!(get_bit(0b1010_0000, 7));
    assert!(!get_bit(0b1010_0000, 6));
    assert!(get_bit(0b1010_0000, 5));
}

#[test]
fn set_bit_places_one_bit() {
    for pos in 0u8..8 {
        assert_eq!(set_bit(true, pos), 1 << pos);
        assert_eq!(set_bit(false, pos), 0);
    }
}

#[test]
fn pack_bits_is_most_significant_first() {
    assert_eq!(pack_bits(true, false, false, false, false, false, false, false), 0x80);
    assert_eq!(pack_bits(false, false, false, false, false, false, false, true), 0x01);
    assert_eq!(pack_bits(true, false, true, false, false, true, false, true), 0xa5);
    assert_eq!(pack_bits(true, true, true, true, true, true, true, true), 0xff);
    assert_eq!(pack_bits(false, false, false, false, false, false, false, false), 0x00);
}

#[test]
fn pack_bits_and_get_bit_agree() {
    for byte in 0u8..=255 {
        let packed = pack_bits(
            get_bit(byte, 7),
            get_bit(byte, 6),
            get_bit(byte, 5),
            get_bit(byte, 4),
            get_bit(byte, 3),
            get_bit(byte, 2),
            get_bit(byte, 1),
            get_bit(byte, 0),
        );
        assert_eq!(packed, byte);
    }
}

#[test]
fn take_u8_reads_the_first_byte() {
    let input = [0x12u8, 0x34, 0x56];
    let (rest, value) = take_u8(&input).unwrap();
    assert_eq!(value, 0x12);
    assert_eq!(rest, &[0x34, 0x56]);
    assert_eq!(take_u8(&[]), Err(Error::Incomplete(1)));
}

#[test]
fn take_u16_reads_big_endian() {
    let input = [0x12u8, 0x34, 0x56];
    let (rest, value) = take_u16(&input).unwrap();
    assert_eq!(value, 0x1234);
    assert_eq!(rest, &[0x56]);
    assert_eq!(take_u16(&[0x12]), Err(Error::Incomplete(1)));
    assert_eq!(take_u16(&[]), Err(Error::Incomplete(2)));
}

#[test]
fn take_u32_reads_big_endian() {
    let input = [0x12u8, 0x34, 0x56, 0x78, 0x9a];
    let (rest, value) = take_u32(&input).unwrap();
    assert_eq!(value, 0x1234_5678);
    assert_eq!(rest, &[0x9a]);
    assert_eq!(take_u32(&[0x12]), Err(Error::Incomplete(3)));
    assert_eq!(take_u32(&[0x12, 0x34, 0x56]), Err(Error::Incomplete(1)));
}

#[test]
fn take_u64_reads_big_endian() {
    let input = [0x01u8, 0x23, 0x45, 0x67, 0x89, 0xab, 0xcd, 0xef, 0xff, 0xee];
    let (rest, value) = take_u64(&input).unwrap();
    assert_eq!(value, 0x0123_4567_89ab_cdef);
    assert_eq!(rest, &[0xff, 0xee]);
    assert_eq!(take_u64(&[0x01]), Err(Error::Incomplete(7)));
    assert_eq!(take_u64(&input[..7]), Err(Error::Incomplete(1)));
}

#[test]
fn put_u16_writes_big_endian() {
    let mut buffer = [0xffu8; 4];
    put_u16(&mut buffer, 0x1234);
    assert_eq!(buffer, [0x12, 0x34, 0xff, 0xff]);
}

#[test]
fn put_u32_writes_big_endian() {
    let mut buffer = [0xffu8; 6];
    put_u32(&mut buffer, 0x1234_5678);
    assert_eq!(buffer, [0x12, 0x34, 0x56, 0x78, 0xff, 0xff]);
}

#[test]
fn put_u64_writes_big_endian() {
    let mut buffer = [0xffu8; 9];
    put_u64(&mut buffer, 0x0123_4567_89ab_cdef);
    assert_eq!(buffer, [0x01, 0x23, 0x45, 0x67, 0x89, 0xab, 0xcd, 0xef, 0xff]);
}

#[test]
fn put_and_take_round_trip() {
    let mut buffer = [0u8; 8];
    for value in [0u64, 1, 0xff, 0x100, u32::MAX as u64, u64::MAX, 0x8000_0000_0000_0000] {
        put_u64(&mut buffer, value);
        assert_eq!(take_u64(&buffer).unwrap().1, value);
    }
    for value in [0u32, 1, 0xff, 0x100, 0xffff, 0x1_0000, u32::MAX, 0x8000_0000] {
        put_u32(&mut buffer, value);
        assert_eq!(take_u32(&buffer).unwrap().1, value);
    }
    for value in [0u16, 1, 0xff, 0x100, u16::MAX, 0x8000] {
        put_u16(&mut buffer, value);
        assert_eq!(take_u16(&buffer).unwrap().1, value);
    }
}

#[test]
fn put_bytes_copies_over_the_front() {
    let mut buffer = [0xffu8; 5];
    put_bytes(&mut buffer, &[1, 2, 3]);
    assert_eq!(buffer, [1, 2, 3, 0xff, 0xff]);
    put_bytes(&mut buffer, &[]);
    assert_eq!(buffer, [1, 2, 3, 0xff, 0xff]);
}
