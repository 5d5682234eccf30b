use ntpquery::fields::{FieldKind, InvalidField, Leap, Mode, Poll, Precision};
use ntpquery::fixed::{ShortTime, Timestamp};
use ntpquery::packet::Packet;

fn sample_packet() -> Packet {
    Packet {
        lvm: 0x24,
        stratum: 2,
        poll: Poll(-6),
        precision: Precision(-23),
        root_delay: ShortTime(0x0102, 0xfffe),
        root_dispersion: ShortTime(7, 0x8000),
        ref_id: [192, 0, 2, 1],
        reference_time: Timestamp(0xe9a1_b2c3, 0x0000_0001),
        origin_time: Timestamp(1, 2),
        receive_time: Timestamp(0xffff_ffff, 0xffff_ffff),
        transmit_time: Timestamp(0x8000_0000, 0x1234_5678),
    }
}

#[test]
fn packet_round_trip() {
    let p = sample_packet();
    let mut buf = Vec::new();
    p.to_buf(&mut buf);
    let mut pos = 0usize;
    let q = Packet::from_buf(&buf, &mut pos);
    assert_eq!(q, p);
    assert_eq!(pos, 48);
}

#[test]
fn packet_encoding_is_48_bytes() {
    let mut buf = Vec::new();
    Packet::default().to_buf(&mut buf);
    assert_eq!(buf.len(), 48);
    let mut buf = vec![9u8, 9];
    sample_packet().to_buf(&mut buf);
    assert_eq!(buf.len(), 50);
    assert_eq!(&buf[..2], &[9, 9]);
}

#[test]
fn packet_encoding_bytes() {
    let mut buf = Vec::new();
    sample_packet().to_buf(&mut buf);
    assert_eq!(&buf[0..4], &[0x24, 2, 0xfa, 0xe9]);
    assert_eq!(&buf[4..12], &[0x01, 0x02, 0xff, 0xfe, 0, 7, 0x80, 0]);
    assert_eq!(&buf[12..16], &[192, 0, 2, 1]);
    assert_eq!(&buf[16..24], &[0xe9, 0xa1, 0xb2, 0xc3, 0, 0, 0, 1]);
    assert_eq!(&buf[40..48], &[0x80, 0, 0, 0, 0x12, 0x34, 0x56, 0x78]);
}

#[test]
fn packet_decode_reads_only_its_span() {
    let mut buf = vec![0xaa; 3];
    sample_packet().to_buf(&mut buf);
    buf.extend_from_slice(&[0xbb; 5]);
    let mut pos = 3usize;
    let q = Packet::from_buf(&buf, &mut pos);
    assert_eq!(pos, 51);
    assert_eq!(q, sample_packet());
}

#[test]
fn short_time_round_trip() {
    for &(s, f) in &[(0u16, 0u16), (1, 32768), (65535, 65535), (0x1234, 0xabcd)] {
        let mut buf = Vec::new();
        ShortTime(s, f).to_buf(&mut buf);
        assert_eq!(buf.len(), 4);
        let mut pos = 0usize;
        assert_eq!(ShortTime::from_buf(&buf, &mut pos), ShortTime(s, f));
        assert_eq!(pos, 4);
    }
}

#[test]
fn timestamp_round_trip() {
    let t = Timestamp(0xdead_beef, 0x0102_0304);
    let mut buf = Vec::new();
    t.to_buf(&mut buf);
    assert_eq!(buf, vec![0xde, 0xad, 0xbe, 0xef, 1, 2, 3, 4]);
    let mut pos = 0usize;
    assert_eq!(Timestamp::from_buf(&buf, &mut pos), t);
    assert_eq!(pos, 8);
}

#[test]
fn timestamp_epoch_is_1900() {
    let epoch = time::Date::from_calendar_date(1900, time::Month::January, 1)
        .unwrap()
        .midnight()
        .assume_utc();
    assert_eq!(Timestamp(0, 0).to_datetime(), epoch);
    assert_eq!(Timestamp(0, 0).unix_timestamp_nanos(), -2_208_988_800_000_000_000);
}

#[test]
fn timestamp_unix_epoch_and_fraction() {
    assert_eq!(
        Timestamp(2_208_988_800, 0).to_datetime(),
        time::OffsetDateTime::UNIX_EPOCH
    );
    let t = Timestamp(2_208_988_800, 0x8000_0000);
    assert_eq!(t.subsec_nanos(), 500_000_000);
    assert_eq!(t.to_datetime().nanosecond(), 500_000_000);
    assert_eq!(Timestamp(0, 0xffff_ffff).subsec_nanos(), 999_999_999);
    assert_eq!(Timestamp(0, 1).subsec_nanos(), 0);
    assert_eq!(Timestamp(0, 5).subsec_nanos(), 1);
}

#[test]
fn leap_decode_totality() {
    for v in 0u8..=255 {
        match Leap::from_u8(v) {
            Ok(l) => {
                assert!(v <= 3);
                assert_eq!(l.to_u8(), v);
            }
            Err(e) => {
                assert!(v > 3);
                assert_eq!(e, InvalidField { kind: FieldKind::Leap, value: v });
            }
        }
    }
    assert_eq!(Leap::from_u8(3), Ok(Leap::NotInSync));
}

#[test]
fn mode_decode_totality() {
    for v in 0u8..=255 {
        match Mode::from_u8(v) {
            Ok(m) => {
                assert!(v <= 5);
                assert_eq!(m.to_u8(), v);
            }
            Err(e) => {
                assert!(v > 5);
                assert_eq!(e, InvalidField { kind: FieldKind::Mode, value: v });
            }
        }
    }
    assert!(Mode::from_u8(6).is_err());
    assert!(Mode::from_u8(7).is_err());
    assert_eq!(Mode::from_u8(4), Ok(Mode::Server));
}

#[test]
fn field_names() {
    assert_eq!(Leap::NoWarning.name(), "No Warning");
    assert_eq!(Leap::DelSecond.name(), "Delete Second");
    assert_eq!(Leap::NotInSync.name(), "Not In Sync");
    assert_eq!(Mode::Broadcast.name(), "Broadcast");
    assert_eq!(Mode::Client.name(), "Client");
}

#[test]
fn poll_display() {
    assert_eq!(Poll(8).to_string(), "256 seconds");
    assert_eq!(Poll(6).to_string(), "64 seconds");
    assert_eq!(Poll(10).to_string(), "1024 seconds");
    assert_eq!(Poll(3).to_string(), "invalid (3)");
    assert_eq!(Poll(11).to_string(), "invalid (11)");
    assert_eq!(Poll(-128).to_string(), "invalid (-128)");
    assert_eq!(Poll(0).to_string(), "invalid (0)");
    assert_eq!(Poll(8).interval(), Some(256));
    assert_eq!(Poll(5).interval(), None);
}

#[test]
fn reference_id_rendering() {
    let mut p = Packet::default();
    p.stratum = 2;
    p.ref_id = [192, 0, 2, 1];
    assert_eq!(p.ref_id_text(), "192.0.2.1");
    p.ref_id = [255, 10, 100, 0];
    assert_eq!(p.ref_id_text(), "255.10.100.0");
    p.stratum = 1;
    p.ref_id = [76, 79, 67, 76];
    assert_eq!(p.ref_id_text(), "LOCL");
    p.stratum = 0;
    p.ref_id = [0x52, 0x41, 0x54, 0xe9];
    assert_eq!(p.ref_id_text(), "RAT\u{e9}");
}

#[test]
fn new_query_packet() {
    let p = Packet::new(Leap::NotInSync, 4, Mode::Client);
    assert_eq!(p.lvm, 0b11_100_011);
    assert_eq!(p.stratum, 16);
    let mut zeroed = Packet::default();
    zeroed.lvm = 0xe3;
    zeroed.stratum = 16;
    assert_eq!(p, zeroed);
}

#[test]
fn leap_version_mode_unpacks() {
    let p = Packet::new(Leap::AddSecond, 3, Mode::Server);
    assert_eq!(p.leap_version_mode(), Ok((Leap::AddSecond, 3, Mode::Server)));
    let mut q = Packet::default();
    q.lvm = 0xe3;
    assert_eq!(q.leap_version_mode(), Ok((Leap::NotInSync, 4, Mode::Client)));
    q.lvm = 0b00_010_111;
    assert_eq!(
        q.leap_version_mode(),
        Err(InvalidField { kind: FieldKind::Mode, value: 7 })
    );
}

#[test]
fn new_packs_wide_version_as_bytes() {
    let p = Packet::new(Leap::NoWarning, 9, Mode::Client);
    assert_eq!(p.lvm, (9u8 << 3) | 3);
    let p = Packet::new(Leap::DelSecond, 1, Mode::Broadcast);
    assert_eq!(p.lvm, 0b10_001_101);
}

#[test]
fn short_time_seconds_text() {
    assert_eq!(ShortTime(1, 32768).seconds_text(), "1.500000000");
    assert_eq!(ShortTime(0, 0).seconds_text(), "0.000000000");
    assert_eq!(ShortTime(0, 1).seconds_text(), "0.000015259");
    assert_eq!(ShortTime(0, 64).seconds_text(), "0.000976562");
    assert_eq!(ShortTime(0, 192).seconds_text(), "0.002929688");
    assert_eq!(ShortTime(12, 0x4000).seconds_text(), "12.250000000");
    assert_eq!(ShortTime(65535, 65535).seconds_text(), "65535.999984741");
}

#[test]
fn short_time_text_agrees_with_float_formatting() {
    for f in (0u32..65536).step_by(61).chain([64, 192, 65535]) {
        let t = ShortTime(3, f as u16);
        let x = 3.0 + f as f64 / 65536.0;
        assert_eq!(t.seconds_text(), format!("{:.9}", x));
    }
}

#[test]
fn precision_display() {
    assert_eq!(Precision(0).to_string(), "1.000000000 seconds");
    assert_eq!(Precision(3).to_string(), "8.000000000 seconds");
    assert_eq!(Precision(-1).to_string(), "0.500000000 seconds");
    assert_eq!(Precision(-10).to_string(), "0.000976562 seconds");
    assert_eq!(Precision(-20).to_string(), "0.000000954 seconds");
    assert_eq!(Precision(-30).to_string(), "0.000000001 seconds");
    assert_eq!(Precision(-31).to_string(), "0.000000000 seconds");
    assert_eq!(Precision(-128).to_string(), "0.000000000 seconds");
    assert_eq!(
        Precision(127).to_string(),
        "170141183460469231731687303715884105728.000000000 seconds"
    );
}

#[test]
fn precision_text_agrees_with_float_formatting() {
    for p in i8::MIN..=i8::MAX {
        let expected = format!("{:.9} seconds", 2.0_f64.powi(p as i32));
        assert_eq!(Precision(p).to_string(), expected, "precision {p}");
    }
}
