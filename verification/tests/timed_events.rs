//! Projection of files into absolute-microsecond event streams.

use midix::{
    note_off_event, note_on_event, tempo_event, Channel, ChannelVoiceMessage, Controller,
    DataByte, Format, LiveEvent, MidiFile, Program, SmpteFps, SystemCommonMessage,
    SystemExclusiveMessage, Tempo, Ticked, Timing, Track, TrackEvent, TrackMessage, VoiceEvent,
};

#[test]
fn get_accumulated_ticks() {}

#[test]
fn known_tempo() {
    let tempo = [0x07, 0xA1, 0x20];

    let tempo = Tempo::new_from_bytes(&tempo);

    assert_eq!(tempo.micros_per_quarter_note(), 500000);
}

#[test]
fn test_single_track_multiple_events_with_delta_time() {
    let timing = Timing::new_ticks_per_quarter_note(480);
    let events = vec![
        tempo_event(0, 500_000),
        note_on_event(0, 60, 100, 0),
        note_off_event(480, 60, 0),
        note_on_event(240, 62, 80, 0),
    ];
    let track = Track::new(events);
    let file = MidiFile { timing, format: Format::SingleMultiChannel(track) };

    let events = file.into_events();
    assert_eq!(events.len(), 3);

    assert_eq!(events[0].timestamp, 0);

    assert_eq!(events[1].timestamp, 500_000);

    assert_eq!(events[2].timestamp, 750_000);
}

#[test]
fn test_simultaneous_format_multiple_tracks() {
    let timing = Timing::new_ticks_per_quarter_note(480);

    let track1_events = vec![
        tempo_event(0, 500_000),
        note_on_event(0, 60, 100, 0),
        note_off_event(480, 60, 0),
    ];
    let track1 = Track::new(track1_events);

    let track2_events = vec![note_on_event(240, 36, 80, 1), note_off_event(480, 36, 1)];
    let track2 = Track::new(track2_events);

    let file = MidiFile { timing, format: Format::Simultaneous(vec![track1, track2]) };

    let events = file.into_events();
    assert_eq!(events.len(), 4);

    assert_eq!(events[0].timestamp, 0);
    assert_eq!(events[1].timestamp, 500_000);
    assert_eq!(events[2].timestamp, 250_000);
    assert_eq!(events[3].timestamp, 750_000);
}

#[test]
fn test_sequentially_independent_format() {
    let timing = Timing::new_ticks_per_quarter_note(960);

    let track1_events = vec![
        tempo_event(0, 1_000_000),
        note_on_event(0, 60, 100, 0),
        note_off_event(960, 60, 0),
    ];
    let track1 = Track::new(track1_events);

    let track2_events = vec![
        tempo_event(0, 500_000),
        note_on_event(0, 48, 90, 1),
        note_off_event(480, 48, 1),
    ];
    let track2 = Track::new(track2_events);

    let file = MidiFile { timing, format: Format::SequentiallyIndependent(vec![track1, track2]) };

    let events = file.into_events();
    assert_eq!(events.len(), 4);

    assert_eq!(events[0].timestamp, 0);
    assert_eq!(events[1].timestamp, 1_000_000);
    assert_eq!(events[2].timestamp, 0);
    assert_eq!(events[3].timestamp, 250_000);
}

#[test]
fn test_smpte_timing() {
    let timing = Timing::new_smpte(SmpteFps::Thirty, DataByte::new(40).unwrap());

    let events = vec![
        note_on_event(0, 60, 100, 0),
        note_off_event(1200, 60, 0),
        note_on_event(600, 62, 80, 0),
    ];
    let track = Track::new(events);
    let file = MidiFile { timing, format: Format::SingleMultiChannel(track) };

    let events = file.into_events();
    assert_eq!(events.len(), 3);

    assert_eq!(events[0].timestamp, 0);
    assert_eq!(events[1].timestamp, 1_000_000);
    assert_eq!(events[2].timestamp, 1_500_000);
}

#[test]
fn test_mixed_event_types() {
    let timing = Timing::new_ticks_per_quarter_note(480);

    let events = vec![
        tempo_event(0, 500_000),
        note_on_event(0, 60, 100, 0),
        TrackEvent::new(
            240,
            TrackMessage::ChannelVoice(ChannelVoiceMessage::new(
                Channel::One,
                VoiceEvent::ControlChange(Controller::other(
                    DataByte::new(64).unwrap(),
                    DataByte::new(127).unwrap(),
                )),
            )),
        ),
        TrackEvent::new(
            240,
            TrackMessage::ChannelVoice(ChannelVoiceMessage::new(
                Channel::One,
                VoiceEvent::ProgramChange { program: Program::new(1).unwrap() },
            )),
        ),
        note_off_event(480, 60, 0),
    ];

    let track = Track::new(events);
    let file = MidiFile { timing, format: Format::SingleMultiChannel(track) };

    let events = file.into_events();
    assert_eq!(events.len(), 4);

    assert!(matches!(
        &events[0].event,
        LiveEvent::ChannelVoice(ChannelVoiceMessage { event: VoiceEvent::NoteOn { .. }, .. })
    ));
    assert!(matches!(
        &events[1].event,
        LiveEvent::ChannelVoice(ChannelVoiceMessage {
            event: VoiceEvent::ControlChange(_),
            ..
        })
    ));
    assert!(matches!(
        &events[2].event,
        LiveEvent::ChannelVoice(ChannelVoiceMessage {
            event: VoiceEvent::ProgramChange { .. },
            ..
        })
    ));
    assert!(matches!(
        &events[3].event,
        LiveEvent::ChannelVoice(ChannelVoiceMessage { event: VoiceEvent::NoteOff { .. }, .. })
    ));

    assert_eq!(events[0].timestamp, 0);
    assert_eq!(events[1].timestamp, 250_000);
    assert_eq!(events[2].timestamp, 500_000);
    assert_eq!(events[3].timestamp, 1_000_000);
}

#[test]
fn test_system_exclusive_events() {
    let timing = Timing::new_ticks_per_quarter_note(480);

    let sysex_data = vec![0xF0, 0x43, 0x12, 0x00, 0xF7];
    let events = vec![
        tempo_event(0, 500_000),
        note_on_event(0, 60, 100, 0),
        TrackEvent::new(
            480,
            TrackMessage::SystemExclusive(SystemExclusiveMessage::new(sysex_data)),
        ),
        note_off_event(480, 60, 0),
    ];

    let track = Track::new(events);
    let file = MidiFile { timing, format: Format::SingleMultiChannel(track) };

    let events = file.into_events();
    assert_eq!(events.len(), 3);

    assert!(matches!(
        &events[1].event,
        LiveEvent::SysCommon(SystemCommonMessage::SystemExclusive(_))
    ));
    assert_eq!(events[1].timestamp, 500_000);
}

#[test]
fn test_file_tempo_override_in_simultaneous_format() {
    let timing = Timing::new_ticks_per_quarter_note(480);

    let track1_events = vec![tempo_event(0, 600_000), note_on_event(0, 60, 100, 0)];
    let track1 = Track::new(track1_events);

    let track2_events = vec![tempo_event(0, 400_000), note_on_event(480, 48, 90, 1)];
    let track2 = Track::new(track2_events);

    let file = MidiFile { timing, format: Format::Simultaneous(vec![track1, track2]) };

    let events = file.into_events();
    assert_eq!(events.len(), 2);

    assert_eq!(events[0].timestamp, 0);
    assert_eq!(events[1].timestamp, 600_000);
}

#[test]
fn test_empty_track_handling() {
    let timing = Timing::new_ticks_per_quarter_note(480);

    let track1_events = vec![
        tempo_event(0, 500_000),
        note_on_event(0, 60, 100, 0),
        note_off_event(480, 60, 0),
    ];
    let track1 = Track::new(track1_events);

    let track2 = Track::new(vec![]);

    let track3_events = vec![note_on_event(0, 48, 90, 2)];
    let track3 = Track::new(track3_events);

    let file = MidiFile { timing, format: Format::Simultaneous(vec![track1, track2, track3]) };

    let events = file.into_events();

    assert_eq!(events.len(), 3);

    if let LiveEvent::ChannelVoice(msg) = &events[0].event {
        assert_eq!(msg.channel(), Channel::One);
    }
    if let LiveEvent::ChannelVoice(msg) = &events[2].event {
        assert_eq!(msg.channel(), Channel::Three);
    }
}

#[test]
fn test_empty_file_returns_no_events() {
    let timing = Timing::new_ticks_per_quarter_note(480);
    let file = MidiFile { timing, format: Format::Simultaneous(vec![]) };
    assert_eq!(file.into_events().len(), 0);
}

#[test]
fn track_without_tempo_meta_resolves_to_default() {
    let events = vec![note_on_event(0, 60, 100, 0)];
    let track = Track::new(events);
    assert_eq!(track.info().tempo.micros_per_quarter_note(), 500_000);
}

#[test]
fn last_tempo_meta_wins() {
    let events = vec![
        tempo_event(0, 300_000),
        note_on_event(0, 60, 100, 0),
        tempo_event(0, 700_000),
    ];
    let track = Track::new(events);
    assert_eq!(track.info().tempo.micros_per_quarter_note(), 700_000);
    // the earlier value is discarded entirely, so the whole track is
    // timed with the final one
    let timing = Timing::new_ticks_per_quarter_note(700);
    let file = MidiFile { timing, format: Format::SingleMultiChannel(track) };
    let projected = file.into_events();
    assert_eq!(projected.len(), 1);
    assert_eq!(projected[0].timestamp, 0);
}

#[test]
fn accumulated_ticks_start_at_the_first_delta() {
    let events = vec![note_on_event(25, 60, 100, 0), note_off_event(100, 60, 0)];
    let track = Track::new(events);
    let ticked: &Vec<Ticked<LiveEvent>> = track.events();
    assert_eq!(ticked.len(), 2);
    assert_eq!(ticked[0].accumulated_ticks(), 25);
    assert_eq!(ticked[1].accumulated_ticks(), 125);
}
