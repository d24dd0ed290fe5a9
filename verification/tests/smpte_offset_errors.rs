//! Field-by-field validation of the SMPTE offset parser.

use midix::{SmpteError, SmpteFps, SmpteOffset};

/// Raw SMPTE offset payload bytes.
fn create_smpte_bytes(
    fps_bits: u8,
    hour: u8,
    minute: u8,
    second: u8,
    frame: u8,
    subframe: u8,
) -> Vec<u8> {
    vec![
        (fps_bits << 5) | (hour & 0x1F),
        minute,
        second,
        frame,
        subframe,
    ]
}

#[test]
fn parse_smpte_offset() {
    // these are the payload bytes of an offset meta event
    let bytes = [0x41, 0x17, 0x2D, 0x0C, 0x22];
    let offset = SmpteOffset::parse(&bytes).unwrap();

    assert_eq!(offset.fps, SmpteFps::TwentyNine);
    assert_eq!(offset.hour, 1);
    assert_eq!(offset.minute, 23);
    assert_eq!(offset.second, 45);
    assert_eq!(offset.frame, 12);
    assert_eq!(offset.subframe, 34);
}

#[test]
fn parse_invalid_smpte_offset() {
    let bytes = [0x7F, 0x17, 0x2D, 0x0C, 0x22];
    let err = SmpteOffset::parse(&bytes).unwrap_err();
    assert_eq!(err, SmpteError::HourOffset(31));

    let bytes = [0x41, 0x50, 0x2D, 0x0C, 0x22];
    let err = SmpteOffset::parse(&bytes).unwrap_err();
    assert_eq!(err, SmpteError::MinuteOffset(80));
}

#[test]
fn test_smpte_offset_invalid_length() {
    let short_data = vec![0x00, 0x00, 0x00];
    let result = SmpteOffset::parse(&short_data);
    assert!(matches!(result, Err(SmpteError::Length(3))));

    let long_data = vec![0x00, 0x00, 0x00, 0x00, 0x00, 0x00];
    let result = SmpteOffset::parse(&long_data);
    assert!(matches!(result, Err(SmpteError::Length(6))));

    let empty_data = vec![];
    let result = SmpteOffset::parse(&empty_data);
    assert!(matches!(result, Err(SmpteError::Length(0))));
}

#[test]
fn test_smpte_offset_invalid_frame_type() {
    let invalid_fps_4 = create_smpte_bytes(0b100, 12, 30, 15, 10, 50);
    let result = SmpteOffset::parse(&invalid_fps_4);
    assert!(matches!(result, Err(SmpteError::TrackFrame(4))));

    let invalid_fps_5 = create_smpte_bytes(0b101, 12, 30, 15, 10, 50);
    let result = SmpteOffset::parse(&invalid_fps_5);
    assert!(matches!(result, Err(SmpteError::TrackFrame(5))));

    let invalid_fps_7 = create_smpte_bytes(0b111, 12, 30, 15, 10, 50);
    let result = SmpteOffset::parse(&invalid_fps_7);
    assert!(matches!(result, Err(SmpteError::TrackFrame(7))));
}

#[test]
fn test_smpte_offset_invalid_hour() {
    let data = vec![0x18, 0x00, 0x00, 0x00, 0x00];
    let result = SmpteOffset::parse(&data);
    assert!(matches!(result, Err(SmpteError::HourOffset(24))));

    let data_max = vec![0x1F, 0x00, 0x00, 0x00, 0x00];
    let result = SmpteOffset::parse(&data_max);
    assert!(matches!(result, Err(SmpteError::HourOffset(31))));
}

#[test]
fn test_smpte_offset_invalid_minute() {
    let data = create_smpte_bytes(0, 12, 60, 30, 15, 50);
    let result = SmpteOffset::parse(&data);
    assert!(matches!(result, Err(SmpteError::MinuteOffset(60))));

    for invalid_minute in [61, 70, 80, 99, 100, 255] {
        let data = create_smpte_bytes(0, 12, invalid_minute, 30, 15, 50);
        let result = SmpteOffset::parse(&data);
        assert!(matches!(result, Err(SmpteError::MinuteOffset(_))));
    }
}

#[test]
fn test_smpte_offset_invalid_second() {
    let data = create_smpte_bytes(1, 12, 30, 60, 15, 50);
    let result = SmpteOffset::parse(&data);
    assert!(matches!(result, Err(SmpteError::SecondOffset(60))));

    let data_max = create_smpte_bytes(1, 12, 30, 255, 15, 50);
    let result = SmpteOffset::parse(&data_max);
    assert!(matches!(result, Err(SmpteError::SecondOffset(255))));
}

#[test]
fn test_smpte_offset_invalid_subframe() {
    let data = create_smpte_bytes(2, 12, 30, 45, 15, 100);
    let result = SmpteOffset::parse(&data);
    assert!(matches!(result, Err(SmpteError::Subframe(100))));

    for invalid_subframe in [101, 110, 150, 200, 255] {
        let data = create_smpte_bytes(2, 12, 30, 45, 15, invalid_subframe);
        let result = SmpteOffset::parse(&data);
        assert!(matches!(result, Err(SmpteError::Subframe(_))));
    }
}

#[test]
fn test_smpte_offset_boundary_values() {
    let test_cases = vec![
        (0, 0, 0, 0, 0, 0),
        (0, 23, 0, 0, 0, 0),
        (0, 0, 59, 0, 0, 0),
        (0, 0, 0, 59, 0, 0),
        (0, 0, 0, 0, 0, 99),
        (0, 23, 59, 59, 23, 99),
        (1, 23, 59, 59, 24, 99),
        (2, 23, 59, 59, 29, 99),
        (3, 23, 59, 59, 29, 99),
    ];

    for (fps_bits, hour, minute, second, frame, subframe) in test_cases {
        let data = create_smpte_bytes(fps_bits, hour, minute, second, frame, subframe);
        let result = SmpteOffset::parse(&data);
        assert!(result.is_ok(), "Failed for {:?}", data);

        let offset = result.unwrap();
        assert_eq!(offset.hour, hour);
        assert_eq!(offset.minute, minute);
        assert_eq!(offset.second, second);
        assert_eq!(offset.frame, frame);
        assert_eq!(offset.subframe, subframe);
    }
}

#[test]
fn test_smpte_offset_frame_limits() {
    // the frame byte is not checked against the rate's own maximum
    let test_cases = vec![
        (SmpteFps::TwentyFour, 0, 24),
        (SmpteFps::TwentyFive, 1, 25),
        (SmpteFps::TwentyNine, 2, 30),
        (SmpteFps::Thirty, 3, 30),
    ];

    for (expected_fps, fps_bits, frame) in test_cases {
        let data = create_smpte_bytes(fps_bits, 12, 30, 45, frame, 50);
        let result = SmpteOffset::parse(&data);

        if let Ok(offset) = result {
            assert_eq!(offset.fps, expected_fps);
            assert_eq!(offset.frame, frame);
        }
    }
}

#[test]
fn test_smpte_offset_combined_errors() {
    // with several fields out of range the first one, in field order,
    // names the error
    let data = create_smpte_bytes(0, 25, 61, 30, 15, 50);
    let result = SmpteOffset::parse(&data);
    assert!(matches!(result, Err(SmpteError::HourOffset(25))));

    let data2 = create_smpte_bytes(1, 23, 60, 60, 15, 50);
    let result2 = SmpteOffset::parse(&data2);
    assert!(matches!(result2, Err(SmpteError::MinuteOffset(60))));

    let data3 = create_smpte_bytes(2, 23, 59, 59, 29, 100);
    let result3 = SmpteOffset::parse(&data3);
    assert!(matches!(result3, Err(SmpteError::Subframe(100))));
}

#[test]
fn test_smpte_offset_bit_manipulation_edge_cases() {
    // hour bits never interfere with the rate bits
    for fps_bits in 0..=3 {
        for hour in 0..=23 {
            let first_byte = (fps_bits << 5) | hour;
            let data = vec![first_byte, 30, 45, 15, 50];
            let result = SmpteOffset::parse(&data).unwrap();

            let expected_fps = match fps_bits {
                0 => SmpteFps::TwentyFour,
                1 => SmpteFps::TwentyFive,
                2 => SmpteFps::TwentyNine,
                _ => SmpteFps::Thirty,
            };
            assert_eq!(result.fps, expected_fps);
            assert_eq!(result.hour, hour);
        }
    }
}
