//! Whole-buffer parsing into file values, and the error surface.

use midix::{
    ChunkError, ChunkEvent, FileError, Format, FormatStage, FormatType, MidiFile,
    MidiFileBuilder, ParseError, RawFormat, ReaderErrorKind, Timing, TrackMessage,
};

fn header(format: u16, ntrks: u16, timing: [u8; 2]) -> Vec<u8> {
    let mut bytes = Vec::new();
    bytes.extend_from_slice(b"MThd");
    bytes.extend_from_slice(&[0x00, 0x00, 0x00, 0x06]);
    bytes.extend_from_slice(&format.to_be_bytes());
    bytes.extend_from_slice(&ntrks.to_be_bytes());
    bytes.extend_from_slice(&timing);
    bytes
}

fn track(body: &[u8]) -> Vec<u8> {
    let mut bytes = Vec::new();
    bytes.extend_from_slice(b"MTrk");
    bytes.extend_from_slice(&(body.len() as u32).to_be_bytes());
    bytes.extend_from_slice(body);
    bytes
}

const SIMPLE_BODY: &[u8] = &[
    0x00, 0x90, 0x3C, 0x64, // note on
    0x60, 0x80, 0x3C, 0x40, // note off
    0x00, 0xFF, 0x2F, 0x00, // end of track
];

#[test]
fn parse_accepts_a_simple_file() {
    let mut bytes = header(0, 1, [0x01, 0xE0]);
    bytes.extend_from_slice(&track(SIMPLE_BODY));

    let file = MidiFile::parse(&bytes).unwrap();
    assert_eq!(file.format_type(), FormatType::SingleMultiChannel);
    assert_eq!(file.timing().ticks_per_quarter_note(), Some(480));
    let tracks = file.tracks();
    assert_eq!(tracks.len(), 1);
    assert_eq!(tracks[0].events().len(), 2);
}

#[test]
fn parse_accepts_tracks_before_the_header() {
    let mut bytes = track(SIMPLE_BODY);
    bytes.extend_from_slice(&track(SIMPLE_BODY));
    bytes.extend_from_slice(&header(1, 2, [0x01, 0xE0]));

    let file = MidiFile::parse(&bytes).unwrap();
    assert_eq!(file.format_type(), FormatType::Simultaneous);
    assert_eq!(file.tracks().len(), 2);
}

#[test]
fn parse_keeps_unknown_chunks_aside() {
    let mut bytes = header(0, 1, [0x01, 0xE0]);
    bytes.extend_from_slice(b"XFIH");
    bytes.extend_from_slice(&[0x00, 0x00, 0x00, 0x02, 0xAB, 0xCD]);
    bytes.extend_from_slice(&track(SIMPLE_BODY));

    let file = MidiFile::parse(&bytes).unwrap();
    assert_eq!(file.tracks().len(), 1);
}

#[test]
fn parse_rejects_a_duplicate_header() {
    let mut bytes = header(0, 1, [0x01, 0xE0]);
    bytes.extend_from_slice(&header(0, 1, [0x01, 0xE0]));
    bytes.extend_from_slice(&track(SIMPLE_BODY));

    let err = MidiFile::parse(&bytes).unwrap_err();
    assert!(matches!(
        err.error_kind(),
        ReaderErrorKind::ParseError(ParseError::Chunk(ChunkError::DuplicateHeader))
    ));
}

#[test]
fn parse_rejects_a_second_track_for_format_zero() {
    let mut bytes = header(0, 1, [0x01, 0xE0]);
    bytes.extend_from_slice(&track(SIMPLE_BODY));
    bytes.extend_from_slice(&track(SIMPLE_BODY));

    let err = MidiFile::parse(&bytes).unwrap_err();
    assert!(matches!(
        err.error_kind(),
        ReaderErrorKind::ParseError(ParseError::Chunk(
            ChunkError::MultipleTracksForSingleMultiChannel
        ))
    ));
}

#[test]
fn parse_without_any_header_has_no_format() {
    let bytes = track(SIMPLE_BODY);
    let err = MidiFile::parse(&bytes).unwrap_err();
    assert!(matches!(
        err.error_kind(),
        ReaderErrorKind::ParseError(ParseError::File(FileError::NoFormat))
    ));
}

#[test]
fn parse_of_an_empty_buffer_has_no_format() {
    let err = MidiFile::parse(&[]).unwrap_err();
    assert!(matches!(
        err.error_kind(),
        ReaderErrorKind::ParseError(ParseError::File(FileError::NoFormat))
    ));
}

#[test]
fn parse_rejects_an_undeclared_format_number() {
    let mut bytes = header(3, 1, [0x01, 0xE0]);
    bytes.extend_from_slice(&track(SIMPLE_BODY));
    let err = MidiFile::parse(&bytes).unwrap_err();
    assert!(matches!(
        err.error_kind(),
        ReaderErrorKind::ParseError(ParseError::Header(_))
    ));
    assert_eq!(err.position(), 8);
}

#[test]
fn parse_rejects_a_bad_smpte_header_rate() {
    // the timing byte 0x90 is neither a tick rate nor one of the four
    // SMPTE rates
    let bytes = header(0, 1, [0x90, 0x28]);
    let err = MidiFile::parse(&bytes).unwrap_err();
    assert!(matches!(
        err.error_kind(),
        ReaderErrorKind::ParseError(ParseError::Smpte(_))
    ));
}

#[test]
fn parse_reports_truncation_as_out_of_bounds() {
    let mut bytes = header(0, 1, [0x01, 0xE0]);
    bytes.extend_from_slice(&track(SIMPLE_BODY));
    bytes.truncate(bytes.len() - 3);
    let err = MidiFile::parse(&bytes).unwrap_err();
    assert!(err.is_out_of_bounds());
    assert!(!matches!(err.error_kind(), ReaderErrorKind::Eof));
}

#[test]
fn parse_rejects_a_data_byte_without_running_status() {
    // the first event of the track starts with a data byte
    let body = &[0x00, 0x3C, 0x64, 0x00, 0xFF, 0x2F, 0x00];
    let mut bytes = header(0, 1, [0x01, 0xE0]);
    bytes.extend_from_slice(&track(body));
    let err = MidiFile::parse(&bytes).unwrap_err();
    assert!(matches!(
        err.error_kind(),
        ReaderErrorKind::ParseError(ParseError::NoRunningStatus)
    ));
}

#[test]
fn running_status_consumes_one_byte_less() {
    // two identical note-on events; the second omits its status byte
    let body_full = &[
        0x00, 0x90, 0x3C, 0x64, // explicit status
        0x00, 0x90, 0x3E, 0x64, // explicit status again
        0x00, 0xFF, 0x2F, 0x00,
    ];
    let body_running = &[
        0x00, 0x90, 0x3C, 0x64, // explicit status
        0x00, 0x3E, 0x64, // running status: one byte fewer
        0x00, 0xFF, 0x2F, 0x00,
    ];
    let mut full = header(0, 1, [0x01, 0xE0]);
    full.extend_from_slice(&track(body_full));
    let mut running = header(0, 1, [0x01, 0xE0]);
    running.extend_from_slice(&track(body_running));

    let a = MidiFile::parse(&full).unwrap();
    let b = MidiFile::parse(&running).unwrap();
    let ea = a.tracks()[0].events().clone();
    let eb = b.tracks()[0].events().clone();
    assert_eq!(ea, eb);
    assert_eq!(running.len() + 1, full.len());
}

#[test]
fn meta_events_fold_into_track_info() {
    let body = &[
        0x00, 0xFF, 0x03, 0x03, 0x41, 0x42, 0x43, // track name "ABC"
        0x00, 0xFF, 0x51, 0x03, 0x09, 0x27, 0xC0, // tempo 600000
        0x00, 0xFF, 0x58, 0x04, 0x03, 0x02, 0x18, 0x08, // 3/4 time
        0x00, 0x90, 0x3C, 0x64, // one note on
        0x00, 0xFF, 0x2F, 0x00,
    ];
    let mut bytes = header(0, 1, [0x01, 0xE0]);
    bytes.extend_from_slice(&track(body));
    let file = MidiFile::parse(&bytes).unwrap();
    let tracks = file.tracks();
    let info = tracks[0].info();
    assert_eq!(info.tempo.micros_per_quarter_note(), 600_000);
    assert_eq!(info.name, Some(vec![0x41, 0x42, 0x43]));
    assert_eq!(info.time_signature.numerator, 3);
    // meta events are folded away, not kept in the stream
    assert_eq!(tracks[0].events().len(), 1);
}

#[test]
fn sysex_terminator_is_dropped_from_the_payload() {
    let body = &[
        0x00, 0xF0, 0x04, 0x43, 0x12, 0x00, 0xF7, // terminated sysex
        0x00, 0xF0, 0x02, 0x43, 0x12, // unterminated sysex
        0x00, 0xFF, 0x2F, 0x00,
    ];
    let mut bytes = header(0, 1, [0x01, 0xE0]);
    bytes.extend_from_slice(&track(body));
    let file = MidiFile::parse(&bytes).unwrap();
    let tracks = file.tracks();
    let events = tracks[0].events();
    assert_eq!(events.len(), 2);
    match &events[0].event {
        midix::LiveEvent::SysCommon(midix::SystemCommonMessage::SystemExclusive(s)) => {
            assert_eq!(s.0, vec![0x43, 0x12, 0x00]);
            assert_eq!(s.len(), 3);
            assert!(!s.is_empty());
        },
        _ => panic!("expected a sysex event"),
    }
    match &events[1].event {
        midix::LiveEvent::SysCommon(midix::SystemCommonMessage::SystemExclusive(s)) => {
            assert_eq!(s.0, vec![0x43, 0x12]);
        },
        _ => panic!("expected a sysex event"),
    }
}

#[test]
fn builder_reports_a_duplicate_format() {
    // a header arriving while a format is already known, with no timing
    // recorded, is a duplicate format
    let mut builder = MidiFileBuilder {
        format: FormatStage::KnownFormat(RawFormat::single_multichannel()),
        timing: None,
        unknown_chunks: Vec::new(),
    };
    let header = midix::RawHeaderChunk {
        format: RawFormat::single_multichannel(),
        timing: Timing::new_ticks_per_quarter_note(480),
    };
    let err = builder.handle_chunk(ChunkEvent::Header(header)).unwrap_err();
    assert!(matches!(
        err,
        ReaderErrorKind::ParseError(ParseError::Chunk(ChunkError::DuplicateFormat))
    ));
}

#[test]
fn builder_without_timing_cannot_build() {
    let track_body = midix::RawTrackChunk(SIMPLE_BODY.to_vec());
    let events = track_body.events().unwrap();
    let builder = MidiFileBuilder {
        format: FormatStage::Formatted(Format::SingleMultiChannel(midix::Track::new(events))),
        timing: None,
        unknown_chunks: Vec::new(),
    };
    assert!(matches!(builder.build(), Err(FileError::NoTiming)));
}

#[test]
fn raw_format_carries_the_declared_track_count() {
    assert_eq!(RawFormat::single_multichannel().num_tracks(), 1);
    let sim = RawFormat::simultaneous_from_byte_slice([0x01, 0x02]);
    assert_eq!(sim.num_tracks(), 0x0102);
    assert_eq!(sim.format_type(), FormatType::Simultaneous);
    let seq = RawFormat::sequentially_independent_from_byte_slice([0x00, 0x03]);
    assert_eq!(seq.num_tracks(), 3);
    assert_eq!(seq.format_type(), FormatType::SequentiallyIndependent);
}
