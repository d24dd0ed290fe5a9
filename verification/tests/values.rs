//! Microsecond quantities and the remaining value types.

use midix::{note_on_event, Format, Micros, MidiFile, MidiFileHeader, Timing, Track, UMicros};

#[test]
fn micros_round_trip_and_conversions() {
    let m = Micros::new(-1500);
    assert_eq!(m.us(), -1500);
    assert_eq!(m.to_unsigned(), None);
    assert_eq!(m.abs_unsigned().us(), 1500);

    let p = Micros::new(2500);
    assert_eq!(p.to_unsigned(), Some(UMicros::new(2500)));
    assert_eq!(p.abs_unsigned().us(), 2500);

    assert_eq!(Micros::from_ms(3).us(), 3000);
}

#[test]
fn unsigned_micros_saturate_downward() {
    let a = UMicros::new(100);
    let b = UMicros::new(250);
    assert_eq!(b.saturating_sub(a).us(), 150);
    assert_eq!(a.saturating_sub(b).us(), 0);
    assert_eq!(UMicros::from_ms(2).us(), 2000);
    assert_eq!(UMicros::new(77).to_micros().us(), 77);
}

#[test]
fn header_wraps_timing() {
    let timing = Timing::new_ticks_per_quarter_note(0x8000 + 480);
    // the top bit of the tick rate is disregarded
    assert_eq!(timing.ticks_per_quarter_note(), Some(480));
    let header = MidiFileHeader::new(timing);
    assert_eq!(header.timing(), &timing);
}

#[test]
fn for_each_track_visits_in_stored_order() {
    let t1 = Track::new(vec![note_on_event(0, 60, 100, 0)]);
    let t2 = Track::new(vec![note_on_event(0, 61, 100, 1)]);
    let file = MidiFile {
        timing: Timing::new_ticks_per_quarter_note(480),
        format: Format::Simultaneous(vec![t1, t2]),
    };
    let seen = std::cell::Cell::new(0u32);
    file.for_each_track(|t| {
        seen.set(seen.get() + t.events().len() as u32);
    });
    assert_eq!(seen.get(), 2);
}
