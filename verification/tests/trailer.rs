use vrt::{Error, Trailer};

fn cleared() -> Trailer {
    Trailer {
        calibrated_time_enable: false,
        valid_data_enable: false,
        reference_lock_enable: false,
        agcmgc_enable: false,
        detected_signal_enable: false,
        spectral_inversion_enable: false,
        overrange_enable: false,
        sample_loss_enable: false,
        user_defined_enable_1: false,
        user_defined_enable_2: false,
        user_defined_enable_3: false,
        user_defined_enable_4: false,
        calibrated_time_indicator: false,
        valid_data_indicator: false,
        reference_lock_indicator: false,
        agcmgc_indicator: false,
        detected_signal_indicator: false,
        spectral_inversion_indicator: false,
        overrange_indicator: false,
        sample_loss_indicator: false,
        user_defined_indicator_1: false,
        user_defined_indicator_2: false,
        user_defined_indicator_3: false,
        user_defined_indicator_4: false,
        associated_context_packet_count_enable: false,
        associated_context_packet_count: 0,
    }
}

/// The trailers with one flag set, each with the bit of the trailer word,
/// counted from the most significant, that holds the flag.
fn single_flags() -> Vec<(u32, Trailer)> {
    let z = cleared();
    vec![
        (31, Trailer { calibrated_time_enable: true, ..z }),
        (30, Trailer { valid_data_enable: true, ..z }),
        (29, Trailer { reference_lock_enable: true, ..z }),
        (28, Trailer { agcmgc_enable: true, ..z }),
        (27, Trailer { detected_signal_enable: true, ..z }),
        (26, Trailer { spectral_inversion_enable: true, ..z }),
        (25, Trailer { overrange_enable: true, ..z }),
        (24, Trailer { sample_loss_enable: true, ..z }),
        (23, Trailer { user_defined_enable_1: true, ..z }),
        (22, Trailer { user_defined_enable_2: true, ..z }),
        (21, Trailer { user_defined_enable_3: true, ..z }),
        (20, Trailer { user_defined_enable_4: true, ..z }),
        (19, Trailer { calibrated_time_indicator: true, ..z }),
        (18, Trailer { valid_data_indicator: true, ..z }),
        (17, Trailer { reference_lock_indicator: true, ..z }),
        (16, Trailer { agcmgc_indicator: true, ..z }),
        (15, Trailer { detected_signal_indicator: true, ..z }),
        (14, Trailer { spectral_inversion_indicator: true, ..z }),
        (13, Trailer { overrange_indicator: true, ..z }),
        (12, Trailer { sample_loss_indicator: true, ..z }),
        (11, Trailer { user_defined_indicator_1: true, ..z }),
        (10, Trailer { user_defined_indicator_2: true, ..z }),
        (9, Trailer { user_defined_indicator_3: true, ..z }),
        (8, Trailer { user_defined_indicator_4: true, ..z }),
        (7, Trailer { associated_context_packet_count_enable: true, ..z }),
    ]
}

#[test]
fn trailer_parse_all_clear() {
    assert_eq!(Trailer::parse(&[0, 0, 0, 0]), Ok((&[][..], cleared())));
}

#[test]
fn trailer_parse_reads_each_flag_from_its_bit() {
    for (bit, trailer) in single_flags() {
        let word: u32 = 1 << bit;
        assert_eq!(Trailer::parse(&word.to_be_bytes()), Ok((&[][..], trailer)));
    }
}

#[test]
fn trailer_serialize_writes_each_flag_to_its_bit() {
    for (bit, trailer) in single_flags() {
        let word: u32 = 1 << bit;
        let mut buffer = [0xffu8; 4];
        assert_eq!(trailer.serialize(&mut buffer), Ok(4));
        assert_eq!(buffer, word.to_be_bytes());
    }
}

#[test]
fn trailer_parse_reads_the_context_packet_count() {
    for count in 0u8..128 {
        let (_, trailer) = Trailer::parse(&[0, 0, 0, count]).unwrap();
        assert_eq!(trailer, Trailer { associated_context_packet_count: count, ..cleared() });
        let (_, trailer) = Trailer::parse(&[0, 0, 0, 0x80 | count]).unwrap();
        assert_eq!(
            trailer,
            Trailer {
                associated_context_packet_count_enable: true,
                associated_context_packet_count: count,
                ..cleared()
            }
        );
    }
}

#[test]
fn trailer_parse_exact_bytes() {
    let (rest, trailer) = Trailer::parse(&[0xa5, 0x3c, 0x81, 0xaa, 0x77]).unwrap();
    assert_eq!(rest, &[0x77]);
    let expected = Trailer {
        calibrated_time_enable: true,
        valid_data_enable: false,
        reference_lock_enable: true,
        agcmgc_enable: false,
        detected_signal_enable: false,
        spectral_inversion_enable: true,
        overrange_enable: false,
        sample_loss_enable: true,
        user_defined_enable_1: false,
        user_defined_enable_2: false,
        user_defined_enable_3: true,
        user_defined_enable_4: true,
        calibrated_time_indicator: true,
        valid_data_indicator: true,
        reference_lock_indicator: false,
        agcmgc_indicator: false,
        detected_signal_indicator: true,
        spectral_inversion_indicator: false,
        overrange_indicator: false,
        sample_loss_indicator: false,
        user_defined_indicator_1: false,
        user_defined_indicator_2: false,
        user_defined_indicator_3: false,
        user_defined_indicator_4: true,
        associated_context_packet_count_enable: true,
        associated_context_packet_count: 0x2a,
    };
    assert_eq!(trailer, expected);
    let mut buffer = [0u8; 4];
    assert_eq!(expected.serialize(&mut buffer), Ok(4));
    assert_eq!(buffer, [0xa5, 0x3c, 0x81, 0xaa]);
}

#[test]
fn trailer_serialize_keeps_seven_bits_of_the_count() {
    let mut buffer = [0u8; 4];
    let trailer = Trailer { associated_context_packet_count: 0xff, ..cleared() };
    assert_eq!(trailer.serialize(&mut buffer), Ok(4));
    assert_eq!(buffer, [0, 0, 0, 0x7f]);
}

#[test]
fn trailer_parse_names_the_missing_bytes() {
    for len in 0..4 {
        assert_eq!(Trailer::parse(&[0xffu8; 4][..len]), Err(Error::Incomplete(4 - len)));
    }
}

#[test]
fn trailer_serialize_leaves_a_short_buffer_alone() {
    for len in 0..4 {
        let mut buffer = vec![0x5au8; len];
        assert_eq!(cleared().serialize(&mut buffer), Err(Error::BufferFull));
        assert_eq!(buffer, vec![0x5au8; len]);
    }
}

#[test]
fn trailer_serialize_writes_only_four_bytes() {
    let mut buffer = [0x5au8; 7];
    assert_eq!(cleared().serialize(&mut buffer), Ok(4));
    assert_eq!(buffer, [0, 0, 0, 0, 0x5a, 0x5a, 0x5a]);
}

#[test]
fn trailer_every_word_round_trips() {
    let mut word: u32 = 0x1234_5678;
    for step in 0..20_000u32 {
        let bytes = match step {
            0 => [0u8; 4],
            1 => [0xffu8; 4],
            _ => word.to_be_bytes(),
        };
        let (rest, trailer) = Trailer::parse(&bytes).unwrap();
        assert!(rest.is_empty());
        let mut buffer = [0u8; 4];
        assert_eq!(trailer.serialize(&mut buffer), Ok(4));
        assert_eq!(buffer, bytes);
        assert_eq!(Trailer::parse(&buffer), Ok((&[][..], trailer)));
        word = word.wrapping_mul(1_664_525).wrapping_add(1_013_904_223);
    }
}
