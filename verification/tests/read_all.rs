//! Whole files walked event by event until the stream's clean end.

use midix::{Reader, ReaderErrorKind};

fn loop_through(bytes: &[u8]) {
    let mut reader = Reader::from_byte_slice(bytes);

    loop {
        if let Err(e) = reader.read_event() {
            if matches!(e.error_kind(), ReaderErrorKind::Eof) {
                break;
            } else {
                panic!("Error at {}, {:?}", reader.buffer_position(), e);
            }
        }
    }
}

/// A format-0 file with one track of channel-voice events.
fn single_track_song(tpqn: u16, tempo: u32, notes: &[u8]) -> Vec<u8> {
    let mut bytes = Vec::new();
    bytes.extend_from_slice(b"MThd");
    bytes.extend_from_slice(&[0x00, 0x00, 0x00, 0x06]);
    bytes.extend_from_slice(&[0x00, 0x00, 0x00, 0x01]);
    bytes.extend_from_slice(&tpqn.to_be_bytes());

    let mut body: Vec<u8> = Vec::new();
    body.extend_from_slice(&[0x00, 0xFF, 0x51, 0x03]);
    body.push((tempo >> 16) as u8);
    body.push((tempo >> 8) as u8);
    body.push(tempo as u8);
    for &n in notes {
        body.extend_from_slice(&[0x00, 0x90, n, 0x64]);
        body.extend_from_slice(&[0x60, 0x80, n, 0x40]);
    }
    body.extend_from_slice(&[0x00, 0xFF, 0x2F, 0x00]);

    bytes.extend_from_slice(b"MTrk");
    bytes.extend_from_slice(&(body.len() as u32).to_be_bytes());
    bytes.extend_from_slice(&body);
    bytes
}

/// A format-1 file with two tracks, the second using running status.
fn two_track_song() -> Vec<u8> {
    let mut bytes = Vec::new();
    bytes.extend_from_slice(b"MThd");
    bytes.extend_from_slice(&[0x00, 0x00, 0x00, 0x06]);
    bytes.extend_from_slice(&[0x00, 0x01, 0x00, 0x02, 0x01, 0xE0]);

    let body1: Vec<u8> = vec![
        0x00, 0xFF, 0x03, 0x04, 0x4C, 0x65, 0x61, 0x64, // a track name
        0x00, 0xFF, 0x51, 0x03, 0x07, 0xA1, 0x20, // tempo
        0x00, 0xFF, 0x2F, 0x00,
    ];
    bytes.extend_from_slice(b"MTrk");
    bytes.extend_from_slice(&(body1.len() as u32).to_be_bytes());
    bytes.extend_from_slice(&body1);

    let body2: Vec<u8> = vec![
        0x00, 0x91, 0x3C, 0x64, // note on, explicit status
        0x10, 0x3E, 0x50, // running status reuses 0x91
        0x20, 0x81, 0x3C, 0x40, // note off
        0x00, 0xF0, 0x03, 0x43, 0x12, 0xF7, // a sysex block
        0x00, 0xFF, 0x2F, 0x00,
    ];
    bytes.extend_from_slice(b"MTrk");
    bytes.extend_from_slice(&(body2.len() as u32).to_be_bytes());
    bytes.extend_from_slice(&body2);
    bytes
}

#[test]
fn read_clementi() {
    loop_through(&single_track_song(480, 500_000, &[60, 64, 67, 72]))
}

#[test]
fn read_clementi_rewritten() {
    loop_through(&single_track_song(480, 500_000, &[72, 67, 64, 60]))
}

#[test]
fn read_crab_rave() {
    loop_through(&single_track_song(960, 468_750, &[50, 53, 57, 50, 53, 57]))
}

#[test]
fn read_levels() {
    loop_through(&single_track_song(384, 461_538, &[61, 64, 68, 61]))
}

#[test]
fn read_pi() {
    loop_through(&single_track_song(480, 500_000, &[63, 61, 64, 61, 65, 69, 62]))
}

#[test]
fn read_pi_damaged() {
    // the same shape of file, with the last track cut off mid-event
    let mut bytes = single_track_song(480, 500_000, &[63, 61, 64, 61, 65, 69, 62]);
    bytes.truncate(bytes.len() - 6);
    let mut reader = Reader::from_byte_slice(&bytes);

    loop {
        if let Err(e) = reader.read_event() {
            if matches!(e.error_kind(), ReaderErrorKind::Eof) {
                panic!("Corrupted file should not have yielded an eof event")
            } else {
                return;
            }
        }
    }
}

#[test]
fn read_river_flows_in_you() {
    loop_through(&two_track_song())
}

#[test]
fn read_sandstorm() {
    loop_through(&single_track_song(192, 436_363, &[59, 59, 59, 61, 59]))
}
