//! Byte wrappers and variable-length quantities.

use midix::bytes::{DataByte, MidiMessageBytes, StatusByte};
use midix::error::ParseError;
use midix::vlq::{decode_vlq, encode_vlq};

#[test]
fn status_byte_accepts_exactly_the_high_half() {
    for b in 0u16..=255u16 {
        let b = b as u8;
        let r = StatusByte::new(b);
        if b >= 0x80 {
            assert_eq!(r.unwrap().byte(), b);
        } else {
            assert_eq!(r.unwrap_err(), ParseError::InvalidStatusByte(b));
        }
    }
}

#[test]
fn data_byte_accepts_exactly_the_low_half() {
    for b in 0u16..=255u16 {
        let b = b as u8;
        let r = DataByte::new(b);
        if b < 0x80 {
            assert_eq!(r.unwrap().value(), b);
        } else {
            assert_eq!(r.unwrap_err(), ParseError::InvalidDataByte(b));
        }
    }
}

#[test]
fn message_bytes_write_as_many_as_fit() {
    let msg = MidiMessageBytes::Double(
        StatusByte::new_unchecked(0x90),
        DataByte::new_unchecked(60),
        DataByte::new_unchecked(100),
    );
    let mut buf = vec![0u8; 5];
    assert_eq!(msg.write_into(&mut buf), 3);
    assert_eq!(&buf[..3], &[0x90, 60, 100]);
    assert_eq!(&buf[3..], &[0, 0]);

    let mut short = vec![0u8; 1];
    assert_eq!(msg.write_into(&mut short), 1);
    assert_eq!(short[0], 0x90);

    let single = MidiMessageBytes::Single(StatusByte::new_unchecked(0xC0), DataByte::new_unchecked(5));
    let mut buf2 = vec![0u8; 2];
    assert_eq!(single.write_into(&mut buf2), 2);
    assert_eq!(buf2, vec![0xC0, 5]);
}

#[test]
fn vlq_round_trips_over_the_representable_range() {
    // one value per encoded width, plus the edges of each width
    let cases: Vec<u32> = vec![
        0, 1, 0x40, 0x7F, 0x80, 0x2000, 0x3FFF, 0x4000, 0x100000, 0x1FFFFF, 0x200000,
        0xFFFFFF, 0x0FFF_FFFF,
    ];
    for v in cases {
        let mut enc: Vec<u8> = Vec::new();
        let n = encode_vlq(v, &mut enc);
        assert_eq!(n, enc.len());
        assert!(n <= 4);
        let (back, end) = decode_vlq(&enc, 0).unwrap();
        assert_eq!(back, v);
        assert_eq!(end, enc.len());
    }
}

#[test]
fn vlq_known_encodings() {
    let mut enc: Vec<u8> = Vec::new();
    encode_vlq(0x00003FFF, &mut enc);
    assert_eq!(enc, vec![0xFF, 0x7F]);
    enc.clear();
    encode_vlq(0x0FFFFFFF, &mut enc);
    assert_eq!(enc, vec![0xFF, 0xFF, 0xFF, 0x7F]);
    enc.clear();
    encode_vlq(0x40, &mut enc);
    assert_eq!(enc, vec![0x40]);
}

#[test]
fn vlq_rejects_unterminated_and_overlong_input() {
    // all continuation bytes up to the end: cut short
    assert!(decode_vlq(&[0x80, 0x80], 0).is_none());
    // five continuation bytes: longer than the four-byte maximum
    assert!(decode_vlq(&[0xFF, 0xFF, 0xFF, 0xFF, 0x7F], 0).is_none());
    // empty input
    assert!(decode_vlq(&[], 0).is_none());
}
