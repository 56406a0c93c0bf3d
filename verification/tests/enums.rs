use vrt::{Error, PktType, Tsf, Tsi};

#[test]
fn pkt_type_codes_in_use() {
    assert_eq!(PktType::try_from(0u8), Ok(PktType::IfData));
    assert_eq!(PktType::try_from(1u8), Ok(PktType::IfDataWithStream));
    assert_eq!(PktType::try_from(2u8), Ok(PktType::ExtData));
    assert_eq!(PktType::try_from(3u8), Ok(PktType::ExtDataWithStream));
    assert_eq!(PktType::try_from(4u8), Ok(PktType::IfContext));
    assert_eq!(PktType::try_from(5u8), Ok(PktType::ExtContext));
}

#[test]
fn pkt_type_codes_out_of_range_carry_the_code() {
    for code in 6u8..=255 {
        assert_eq!(PktType::try_from(code), Err(Error::PktType(code)));
    }
}

#[test]
fn pkt_type_round_trip() {
    let all = [
        PktType::IfData,
        PktType::IfDataWithStream,
        PktType::ExtData,
        PktType::ExtDataWithStream,
        PktType::IfContext,
        PktType::ExtContext,
    ];
    for (code, pkt_type) in all.into_iter().enumerate() {
        assert_eq!(u8::from(pkt_type), code as u8);
        assert_eq!(PktType::try_from(u8::from(pkt_type)), Ok(pkt_type));
    }
    for code in 0u8..=5 {
        assert_eq!(u8::from(PktType::try_from(code).unwrap()), code);
    }
}

#[test]
fn pkt_type_stream_id() {
    assert!(!PktType::IfData.has_stream_id());
    assert!(PktType::IfDataWithStream.has_stream_id());
    assert!(!PktType::ExtData.has_stream_id());
    assert!(PktType::ExtDataWithStream.has_stream_id());
    assert!(!PktType::IfContext.has_stream_id());
    assert!(!PktType::ExtContext.has_stream_id());
}

#[test]
fn tsi_codes() {
    assert_eq!(Tsi::try_from(0u8), Ok(Tsi::Absent));
    assert_eq!(Tsi::try_from(1u8), Ok(Tsi::Utc));
    assert_eq!(Tsi::try_from(2u8), Ok(Tsi::Gps));
    assert_eq!(Tsi::try_from(3u8), Ok(Tsi::Other));
    for code in 4u8..=255 {
        assert_eq!(Tsi::try_from(code), Err(Error::Tsi(code)));
    }
}

#[test]
fn tsi_round_trip() {
    for (code, tsi) in [Tsi::Absent, Tsi::Utc, Tsi::Gps, Tsi::Other].into_iter().enumerate() {
        assert_eq!(u8::from(tsi), code as u8);
        assert_eq!(Tsi::try_from(u8::from(tsi)), Ok(tsi));
    }
    for code in 0u8..=3 {
        assert_eq!(u8::from(Tsi::try_from(code).unwrap()), code);
    }
}

#[test]
fn tsf_codes() {
    assert_eq!(Tsf::try_from(0u8), Ok(Tsf::Absent));
    assert_eq!(Tsf::try_from(1u8), Ok(Tsf::SampleCount));
    assert_eq!(Tsf::try_from(2u8), Ok(Tsf::RealTime));
    assert_eq!(Tsf::try_from(3u8), Ok(Tsf::FreeRunning));
    for code in 4u8..=255 {
        assert_eq!(Tsf::try_from(code), Err(Error::Tsf(code)));
    }
}

#[test]
fn tsf_round_trip() {
    let all = [Tsf::Absent, Tsf::SampleCount, Tsf::RealTime, Tsf::FreeRunning];
    for (code, tsf) in all.into_iter().enumerate() {
        assert_eq!(u8::from(tsf), code as u8);
        assert_eq!(Tsf::try_from(u8::from(tsf)), Ok(tsf));
    }
    for code in 0u8..=3 {
        assert_eq!(u8::from(Tsf::try_from(code).unwrap()), code);
    }
}

#[test]
fn timestamp_kinds_default_to_absent() {
    assert_eq!(Tsi::default(), Tsi::Absent);
    assert_eq!(Tsf::default(), Tsf::Absent);
    assert!(!Tsi::default().is_present());
    assert!(!Tsf::default().is_present());
    assert!(Tsi::Utc.is_present() && Tsi::Gps.is_present() && Tsi::Other.is_present());
    assert!(Tsf::SampleCount.is_present() && Tsf::RealTime.is_present());
    assert!(Tsf::FreeRunning.is_present());
}
