//! The event reader's error surface, and live-byte message building.

use midix::{
    Channel, ChannelVoiceMessage, MidiFile, ParseError, ReaderErrorKind, VoiceEvent,
};

fn file_with_track_body(body: &[u8]) -> Vec<u8> {
    let mut bytes = Vec::new();
    bytes.extend_from_slice(b"MThd");
    bytes.extend_from_slice(&[0x00, 0x00, 0x00, 0x06]);
    bytes.extend_from_slice(&[0x00, 0x00, 0x00, 0x01, 0x01, 0xE0]);
    bytes.extend_from_slice(b"MTrk");
    bytes.extend_from_slice(&(body.len() as u32).to_be_bytes());
    bytes.extend_from_slice(body);
    bytes
}

#[test]
fn a_status_nibble_outside_the_voice_range_is_invalid() {
    // 0xF5 is neither sysex, nor meta, nor a channel-voice status
    let bytes = file_with_track_body(&[0x00, 0xF5, 0x00, 0x00, 0xFF, 0x2F, 0x00]);
    let err = MidiFile::parse(&bytes).unwrap_err();
    assert!(matches!(
        err.error_kind(),
        ReaderErrorKind::ParseError(ParseError::InvalidStatusByte(0xF5))
    ));
}

#[test]
fn a_voice_data_byte_with_its_high_bit_set_is_invalid() {
    let bytes = file_with_track_body(&[0x00, 0x90, 0x3C, 0x99, 0x00, 0xFF, 0x2F, 0x00]);
    let err = MidiFile::parse(&bytes).unwrap_err();
    assert!(matches!(
        err.error_kind(),
        ReaderErrorKind::ParseError(ParseError::InvalidDataByte(0x99))
    ));
}

#[test]
fn a_delta_time_longer_than_four_bytes_is_invalid() {
    let bytes = file_with_track_body(&[0x81, 0x82, 0x83, 0x84, 0x05, 0x90, 0x3C, 0x64]);
    let err = MidiFile::parse(&bytes).unwrap_err();
    assert!(matches!(
        err.error_kind(),
        ReaderErrorKind::ParseError(ParseError::InvalidVlq)
    ));
}

#[test]
fn a_header_declaring_fewer_than_six_bytes_is_invalid() {
    let mut bytes = Vec::new();
    bytes.extend_from_slice(b"MThd");
    bytes.extend_from_slice(&[0x00, 0x00, 0x00, 0x04]);
    bytes.extend_from_slice(&[0x00, 0x00, 0x00, 0x01]);
    let err = MidiFile::parse(&bytes).unwrap_err();
    assert!(matches!(
        err.error_kind(),
        ReaderErrorKind::ParseError(ParseError::Header(_))
    ));
    assert_eq!(err.position(), 4);
}

#[test]
fn from_status_and_data_builds_a_message() {
    let msg = ChannelVoiceMessage::from_status_and_data(0x93, &[0x3C, 0x64]).unwrap();
    assert_eq!(msg.channel(), Channel::Four);
    assert_eq!(msg.status(), 0x93);
    assert_eq!(msg.data_1_byte(), 0x3C);
    assert_eq!(msg.data_2_byte(), Some(0x64));
    assert!(matches!(msg.event(), VoiceEvent::NoteOn { .. }));
    assert!(msg.is_note_on().is_some());
    assert!(msg.is_note_off().is_none());
    assert_eq!(msg.note().unwrap().byte(), 0x3C);
    assert_eq!(msg.velocity().unwrap().byte(), 0x64);
}

#[test]
fn from_status_and_data_reports_missing_data() {
    let err = ChannelVoiceMessage::from_status_and_data(0x93, &[0x3C]).unwrap_err();
    assert_eq!(err, ParseError::MissingData);
}

#[test]
fn from_status_and_data_reports_an_invalid_data_byte() {
    let err = ChannelVoiceMessage::from_status_and_data(0x93, &[0xC0, 0x64]).unwrap_err();
    assert_eq!(err, ParseError::InvalidDataByte(0xC0));
}

#[test]
fn pitch_bend_bytes_are_little_endian_and_unchecked() {
    // the two pitch-bend bytes are stored as read, least significant
    // first — the opposite of the header's big-endian fields
    let msg = ChannelVoiceMessage::from_status_and_data(0xE0, &[0x21, 0x43]).unwrap();
    assert_eq!(msg.data_1_byte(), 0x21);
    assert_eq!(msg.data_2_byte(), Some(0x43));
    match msg.event() {
        VoiceEvent::PitchBend(p) => {
            assert_eq!(p.lsb(), 0x21);
            assert_eq!(p.msb(), 0x43);
        },
        _ => panic!("expected a pitch bend"),
    }
}

#[test]
fn remaining_meta_kinds_fold_into_track_info() {
    let body = &[
        0x00, 0xFF, 0x00, 0x02, 0x00, 0x07, // sequence number 7
        0x00, 0xFF, 0x20, 0x01, 0x02, // channel hint: wire value 2
        0x00, 0xFF, 0x09, 0x02, 0x4F, 0x4B, // device name "OK"
        0x00, 0xFF, 0x7F, 0x02, 0x01, 0x02, // an unrecognized meta kind
        0x00, 0x90, 0x3C, 0x64, 0x00, 0xFF, 0x2F, 0x00,
    ];
    let bytes = file_with_track_body(body);
    let file = MidiFile::parse(&bytes).unwrap();
    let tracks = file.tracks();
    let info = tracks[0].info();
    assert_eq!(info.track_info, Some(7));
    assert_eq!(info.channel, Some(Channel::Three));
    assert_eq!(info.device, Some(vec![0x4F, 0x4B]));
    assert_eq!(tracks[0].events().len(), 1);
}
