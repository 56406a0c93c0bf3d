use vrt::{ClassId, Error};

const BYTES: [u8; 8] = [0x00, 0x12, 0x34, 0x56, 0xab, 0xcd, 0x01, 0x02];

fn sample() -> ClassId {
    ClassId { oui: 0x0012_3456, information_class_code: 0xabcd, packet_class_code: 0x0102 }
}

#[test]
fn class_id_parse_reads_oui_then_information_then_packet_class() {
    let (rest, class_id) = ClassId::parse(&BYTES).unwrap();
    assert_eq!(class_id, sample());
    assert!(rest.is_empty());
}

#[test]
fn class_id_parse_hands_back_what_follows() {
    let mut input = BYTES.to_vec();
    input.extend_from_slice(&[9, 8, 7]);
    let (rest, class_id) = ClassId::parse(&input).unwrap();
    assert_eq!(class_id, sample());
    assert_eq!(rest, &[9, 8, 7]);
}

#[test]
fn class_id_parse_names_the_missing_bytes() {
    for len in 0..8 {
        assert_eq!(ClassId::parse(&BYTES[..len]), Err(Error::Incomplete(8 - len)));
    }
}

#[test]
fn class_id_serialize_writes_eight_bytes() {
    let mut buffer = [0xffu8; 10];
    assert_eq!(sample().serialize(&mut buffer), Ok(8));
    assert_eq!(&buffer[..8], &BYTES);
    assert_eq!(&buffer[8..], &[0xff, 0xff]);
}

#[test]
fn class_id_serialize_leaves_a_short_buffer_alone() {
    for len in 0..8 {
        let mut buffer = vec![0x5au8; len];
        assert_eq!(sample().serialize(&mut buffer), Err(Error::BufferFull));
        assert_eq!(buffer, vec![0x5au8; len]);
    }
}

#[test]
fn class_id_round_trip() {
    let values = [
        ClassId { oui: 0, information_class_code: 0, packet_class_code: 0 },
        ClassId { oui: u32::MAX, information_class_code: u16::MAX, packet_class_code: u16::MAX },
        ClassId { oui: 0x8000_0001, information_class_code: 0x00ff, packet_class_code: 0xff00 },
        sample(),
    ];
    for class_id in values {
        let mut buffer = [0u8; 8];
        assert_eq!(class_id.serialize(&mut buffer), Ok(8));
        assert_eq!(ClassId::parse(&buffer), Ok((&[][..], class_id)));
    }
}
