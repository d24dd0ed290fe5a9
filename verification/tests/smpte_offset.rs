//! SMPTE offsets read out of whole MIDI files through the event reader.

use midix::{FileEvent, MetaMessage, Reader, SmpteFps, SmpteOffset, Timing, TrackMessage};

/// Build a minimal MIDI file with an SMPTE timing header and one track
/// holding an SMPTE offset meta event and one note.
fn create_midi_with_smpte_offset(
    fps: SmpteFps,
    hour: u8,
    minute: u8,
    second: u8,
    frame: u8,
    subframe: u8,
) -> Vec<u8> {
    let mut bytes = Vec::new();

    bytes.extend_from_slice(b"MThd");
    bytes.extend_from_slice(&[0x00, 0x00, 0x00, 0x06]);
    bytes.extend_from_slice(&[0x00, 0x00]); // format 0
    bytes.extend_from_slice(&[0x00, 0x01]); // one track

    let fps_byte = match fps {
        SmpteFps::TwentyFour => 0xE8, // -24 in two's complement
        SmpteFps::TwentyFive => 0xE7, // -25
        SmpteFps::TwentyNine => 0xE3, // -29
        SmpteFps::Thirty => 0xE2,     // -30
    };
    bytes.push(fps_byte);
    bytes.push(40); // 40 ticks per frame

    bytes.extend_from_slice(b"MTrk");
    let track_length_pos = bytes.len();
    bytes.extend_from_slice(&[0x00, 0x00, 0x00, 0x00]);
    let track_start = bytes.len();

    // SMPTE offset meta event
    bytes.push(0x00);
    bytes.push(0xFF);
    bytes.push(0x54);
    bytes.push(0x05);
    let frame_type_bits = match fps {
        SmpteFps::TwentyFour => 0b00,
        SmpteFps::TwentyFive => 0b01,
        SmpteFps::TwentyNine => 0b10,
        SmpteFps::Thirty => 0b11,
    };
    bytes.push((frame_type_bits << 5) | (hour & 0x1F));
    bytes.push(minute);
    bytes.push(second);
    bytes.push(frame);
    bytes.push(subframe);

    // a simple note on and off
    bytes.push(0x00);
    bytes.push(0x90);
    bytes.push(0x3C);
    bytes.push(0x64);
    bytes.push(0x60);
    bytes.push(0x80);
    bytes.push(0x3C);
    bytes.push(0x40);

    // end of track
    bytes.push(0x00);
    bytes.push(0xFF);
    bytes.push(0x2F);
    bytes.push(0x00);

    let track_length = bytes.len() - track_start;
    bytes[track_length_pos..track_length_pos + 4]
        .copy_from_slice(&(track_length as u32).to_be_bytes());

    bytes
}

fn read_offset(midi_data: &[u8]) -> (SmpteFps, SmpteOffset) {
    let mut reader = Reader::from_byte_slice(midi_data);

    let header = match reader.read_event() {
        Ok(FileEvent::Header(header)) => header,
        _ => panic!("Failed to read header"),
    };
    let file_fps = match header.timing() {
        Timing::Smpte(smpte) => {
            assert_eq!(smpte.ticks_per_frame(), 40);
            smpte.fps()
        },
        _ => panic!("Expected SMPTE timing"),
    };

    let track = match reader.read_event() {
        Ok(FileEvent::Track(track)) => track,
        _ => panic!("Failed to read track header"),
    };
    assert!(track.len() > 0);

    let event = match reader.read_event() {
        Ok(FileEvent::TrackEvent(event)) => event,
        _ => panic!("Failed to read track event"),
    };
    match event.event() {
        TrackMessage::Meta(MetaMessage::SmpteOffset(offset)) => (file_fps, *offset),
        _ => panic!("Expected SMPTE offset meta event"),
    }
}

#[test]
fn test_smpte_offset_25fps_pal() {
    let midi_data = create_midi_with_smpte_offset(SmpteFps::TwentyFive, 0, 0, 1, 12, 75);
    let (_, offset) = read_offset(&midi_data);
    assert_eq!(offset.fps, SmpteFps::TwentyFive);
    assert_eq!(offset.hour, 0);
    assert_eq!(offset.minute, 0);
    assert_eq!(offset.second, 1);
    assert_eq!(offset.frame, 12);
    assert_eq!(offset.subframe, 75);
}

#[test]
fn test_smpte_offset_30fps() {
    let midi_data = create_midi_with_smpte_offset(SmpteFps::Thirty, 1, 23, 45, 15, 0);
    let (_, offset) = read_offset(&midi_data);
    assert_eq!(offset.fps, SmpteFps::Thirty);
    assert_eq!(offset.hour, 1);
    assert_eq!(offset.minute, 23);
    assert_eq!(offset.second, 45);
    assert_eq!(offset.frame, 15);
    assert_eq!(offset.subframe, 0);
}

#[test]
fn test_smpte_edge_cases() {
    // maximum valid values
    let midi_data = create_midi_with_smpte_offset(SmpteFps::TwentyFour, 23, 59, 59, 23, 99);
    let (_, offset) = read_offset(&midi_data);
    assert_eq!(offset.hour, 23);
    assert_eq!(offset.minute, 59);
    assert_eq!(offset.second, 59);
    assert_eq!(offset.frame, 23);
    assert_eq!(offset.subframe, 99);
}

#[test]
fn drop_frame_offset_micros_use_the_exact_rational_rate() {
    // 23:59:59, frame 28, subframe 99 at the 30000/1001 rate:
    // 86_399_000_000 + floor((28_000_000 + 990_000) * 1001 / 30000)
    let midi_data = create_midi_with_smpte_offset(SmpteFps::TwentyNine, 23, 59, 59, 28, 99);
    let (file_fps, offset) = read_offset(&midi_data);
    assert_eq!(offset.fps, SmpteFps::TwentyNine);
    let micros = offset.as_micros();
    assert_eq!(micros, 86_399_000_000 + 967_299);
    // the header carries the same rate, so the override agrees
    assert_eq!(offset.as_micros_with_override(file_fps), micros);
    // the nominal 30 fps value differs by more than a microsecond
    let nominal = offset.as_micros_with_override(SmpteFps::Thirty);
    assert!(micros > nominal + 1);
}

#[test]
fn offset_micros_at_24fps() {
    // one frame at 24 fps lasts 1_000_000 / 24 microseconds
    let offset = SmpteOffset {
        fps: SmpteFps::TwentyFour,
        hour: 0,
        minute: 0,
        second: 0,
        frame: 1,
        subframe: 0,
    };
    assert_eq!(offset.as_micros(), 1_000_000 / 24);
    // exactly one second at 30 fps
    let second = SmpteOffset {
        fps: SmpteFps::Thirty,
        hour: 0,
        minute: 0,
        second: 1,
        frame: 0,
        subframe: 0,
    };
    assert_eq!(second.as_micros(), 1_000_000);
}
