//! Track messages: the three shapes of event a track body holds, and the
//! live events a finished track retains.
//!
//! Types that own byte payloads come with a spec-level model (their view)
//! so that contracts can speak of the bytes as sequences.

use vstd::prelude::*;

use crate::bytes::DataByte;
use crate::channel::Channel;
use crate::message::ChannelVoiceMessage;
use crate::smpte_offset::SmpteOffset;
use crate::tempo::Tempo;

verus! {

/// A system exclusive message: the manufacturer-defined data bytes,
/// without the leading `0xF0` and without a trailing `0xF7` terminator.
#[derive(Clone, Debug, Hash, PartialEq, Eq)]
pub struct SystemExclusiveMessage(pub Vec<u8>);

impl View for SystemExclusiveMessage {
    type V = Seq<u8>;

    open spec fn view(&self) -> Seq<u8> {
        self.0@
    }
}

impl SystemExclusiveMessage {
    /// Create a new system exclusive message owning its data.
    pub fn new(data: Vec<u8>) -> (r: Self)
        ensures
            r@ == data@,
    {
        SystemExclusiveMessage(data)
    }

    /// Get the length of the sysex data.
    pub fn len(&self) -> (r: usize)
        ensures
            r == self@.len(),
    {
        self.0.len()
    }

    /// Returns true without sysex data.
    pub fn is_empty(&self) -> (r: bool)
        ensures
            r == (self@.len() == 0),
    {
        self.0.is_empty()
    }
}

/// A time signature, as carried by the four-byte time signature meta
/// event.  The default, used when a track declares none, is 4/4 with the
/// conventional metronome values.
#[derive(Clone, Copy, Debug, PartialEq, Eq, Structural)]
pub struct TimeSignature {
    /// Beats per bar.
    pub numerator: u8,
    /// The denominator as a power of two: 2 means quarter notes.
    pub denominator: u8,
    /// MIDI clocks per metronome click.
    pub clocks_per_click: u8,
    /// Notated 32nd notes per MIDI quarter note.
    pub thirty_seconds_per_quarter: u8,
}

impl Default for TimeSignature {
    /// 4/4, 24 clocks per click, eight 32nds per quarter.
    fn default() -> (r: Self)
        ensures
            r == TimeSignature::spec_default(),
    {
        TimeSignature {
            numerator: 4,
            denominator: 2,
            clocks_per_click: 24,
            thirty_seconds_per_quarter: 8,
        }
    }
}

impl TimeSignature {
    /// The time signature of a track that declares none, for contracts.
    pub open spec fn spec_default() -> TimeSignature {
        TimeSignature {
            numerator: 4,
            denominator: 2,
            clocks_per_click: 24,
            thirty_seconds_per_quarter: 8,
        }
    }

    /// The signature a meta payload denotes: its first four bytes, with
    /// missing bytes read as zero.
    pub open spec fn spec_from_bytes(s: Seq<u8>) -> TimeSignature {
        TimeSignature {
            numerator: if s.len() > 0 {
                s[0]
            } else {
                0
            },
            denominator: if s.len() > 1 {
                s[1]
            } else {
                0
            },
            clocks_per_click: if s.len() > 2 {
                s[2]
            } else {
                0
            },
            thirty_seconds_per_quarter: if s.len() > 3 {
                s[3]
            } else {
                0
            },
        }
    }

    /// Read a time signature from a meta payload: the first four bytes,
    /// with missing bytes read as zero.
    pub fn from_bytes(s: &[u8]) -> (r: Self)
        ensures
            r == TimeSignature::spec_from_bytes(s@),
    {
        TimeSignature {
            numerator: if s.len() > 0 {
                s[0]
            } else {
                0
            },
            denominator: if s.len() > 1 {
                s[1]
            } else {
                0
            },
            clocks_per_click: if s.len() > 2 {
                s[2]
            } else {
                0
            },
            thirty_seconds_per_quarter: if s.len() > 3 {
                s[3]
            } else {
                0
            },
        }
    }
}

/// A meta event, dispatched by its type byte.
///
/// The structured kinds carry parsed values; text kinds keep their bytes
/// verbatim; anything unrecognized keeps its type byte and payload.
#[derive(Clone, Debug, PartialEq, Eq)]
pub enum MetaMessage {
    /// Type 0x00: the number of the sequence.
    SequenceNumber(u16),
    /// Type 0x01: free text.
    Text(Vec<u8>),
    /// Type 0x02: a copyright notice.
    Copyright(Vec<u8>),
    /// Type 0x03: the track's name.
    TrackName(Vec<u8>),
    /// Type 0x04: the instrument's name.
    InstrumentName(Vec<u8>),
    /// Type 0x05: a lyric.
    Lyric(Vec<u8>),
    /// Type 0x06: a marker.
    Marker(Vec<u8>),
    /// Type 0x07: a cue point.
    CuePoint(Vec<u8>),
    /// Type 0x08: the program's name.
    ProgramName(Vec<u8>),
    /// Type 0x09: the device's name.
    DeviceName(Vec<u8>),
    /// Type 0x20: the channel the following events belong to.
    MidiChannel(Channel),
    /// Type 0x2F: the end of the track.
    EndOfTrack,
    /// Type 0x51: the tempo from here on.
    Tempo(Tempo),
    /// Type 0x54: the track's absolute SMPTE start time.
    SmpteOffset(SmpteOffset),
    /// Type 0x58: the time signature from here on.
    TimeSignature(TimeSignature),
    /// Any other type: kept verbatim.
    Unknown(u8, Vec<u8>),
}

/// The spec-level model of a [`MetaMessage`]: byte payloads as sequences.
pub enum MetaModel {
    /// Model of [`MetaMessage::SequenceNumber`].
    SequenceNumber(u16),
    /// Model of [`MetaMessage::Text`].
    Text(Seq<u8>),
    /// Model of [`MetaMessage::Copyright`].
    Copyright(Seq<u8>),
    /// Model of [`MetaMessage::TrackName`].
    TrackName(Seq<u8>),
    /// Model of [`MetaMessage::InstrumentName`].
    InstrumentName(Seq<u8>),
    /// Model of [`MetaMessage::Lyric`].
    Lyric(Seq<u8>),
    /// Model of [`MetaMessage::Marker`].
    Marker(Seq<u8>),
    /// Model of [`MetaMessage::CuePoint`].
    CuePoint(Seq<u8>),
    /// Model of [`MetaMessage::ProgramName`].
    ProgramName(Seq<u8>),
    /// Model of [`MetaMessage::DeviceName`].
    DeviceName(Seq<u8>),
    /// Model of [`MetaMessage::MidiChannel`].
    MidiChannel(Channel),
    /// Model of [`MetaMessage::EndOfTrack`].
    EndOfTrack,
    /// Model of [`MetaMessage::Tempo`].
    Tempo(Tempo),
    /// Model of [`MetaMessage::SmpteOffset`].
    SmpteOffset(SmpteOffset),
    /// Model of [`MetaMessage::TimeSignature`].
    TimeSignature(TimeSignature),
    /// Model of [`MetaMessage::Unknown`].
    Unknown(u8, Seq<u8>),
}

impl View for MetaMessage {
    type V = MetaModel;

    open spec fn view(&self) -> MetaModel {
        match *self {
            MetaMessage::SequenceNumber(n) => MetaModel::SequenceNumber(n),
            MetaMessage::Text(b) => MetaModel::Text(b@),
            MetaMessage::Copyright(b) => MetaModel::Copyright(b@),
            MetaMessage::TrackName(b) => MetaModel::TrackName(b@),
            MetaMessage::InstrumentName(b) => MetaModel::InstrumentName(b@),
            MetaMessage::Lyric(b) => MetaModel::Lyric(b@),
            MetaMessage::Marker(b) => MetaModel::Marker(b@),
            MetaMessage::CuePoint(b) => MetaModel::CuePoint(b@),
            MetaMessage::ProgramName(b) => MetaModel::ProgramName(b@),
            MetaMessage::DeviceName(b) => MetaModel::DeviceName(b@),
            MetaMessage::MidiChannel(c) => MetaModel::MidiChannel(c),
            MetaMessage::EndOfTrack => MetaModel::EndOfTrack,
            MetaMessage::Tempo(t) => MetaModel::Tempo(t),
            MetaMessage::SmpteOffset(o) => MetaModel::SmpteOffset(o),
            MetaMessage::TimeSignature(t) => MetaModel::TimeSignature(t),
            MetaMessage::Unknown(k, b) => MetaModel::Unknown(k, b@),
        }
    }
}

/// A system common message.  Inside MIDI files only system exclusive
/// blocks occur.
#[derive(Clone, Debug, PartialEq, Eq)]
pub enum SystemCommonMessage {
    /// A system exclusive block.
    SystemExclusive(SystemExclusiveMessage),
}

/// The spec-level model of a [`SystemCommonMessage`].
pub enum SystemCommonModel {
    /// Model of [`SystemCommonMessage::SystemExclusive`].
    SystemExclusive(Seq<u8>),
}

impl View for SystemCommonMessage {
    type V = SystemCommonModel;

    open spec fn view(&self) -> SystemCommonModel {
        match *self {
            SystemCommonMessage::SystemExclusive(s) => SystemCommonModel::SystemExclusive(s@),
        }
    }
}

/// An event that can be sent to a live MIDI receiver: what a finished
/// track retains after meta events are folded away.
#[derive(Clone, Debug, PartialEq, Eq)]
pub enum LiveEvent {
    /// A channel voice message.
    ChannelVoice(ChannelVoiceMessage),
    /// A system common message.
    SysCommon(SystemCommonMessage),
}

/// The spec-level model of a [`LiveEvent`].
pub enum LiveEventModel {
    /// Model of [`LiveEvent::ChannelVoice`].
    ChannelVoice(ChannelVoiceMessage),
    /// Model of [`LiveEvent::SysCommon`].
    SysCommon(SystemCommonModel),
}

impl View for LiveEvent {
    type V = LiveEventModel;

    open spec fn view(&self) -> LiveEventModel {
        match *self {
            LiveEvent::ChannelVoice(m) => LiveEventModel::ChannelVoice(m),
            LiveEvent::SysCommon(s) => LiveEventModel::SysCommon(s@),
        }
    }
}

/// One of the three shapes of message a track body holds.
#[derive(Clone, Debug, PartialEq, Eq)]
pub enum TrackMessage {
    /// A channel voice message.
    ChannelVoice(ChannelVoiceMessage),
    /// A system exclusive block.
    SystemExclusive(SystemExclusiveMessage),
    /// A meta event.
    Meta(MetaMessage),
}

/// The spec-level model of a [`TrackMessage`].
pub enum TrackMessageModel {
    /// Model of [`TrackMessage::ChannelVoice`].
    ChannelVoice(ChannelVoiceMessage),
    /// Model of [`TrackMessage::SystemExclusive`].
    SystemExclusive(Seq<u8>),
    /// Model of [`TrackMessage::Meta`].
    Meta(MetaModel),
}

impl View for TrackMessage {
    type V = TrackMessageModel;

    open spec fn view(&self) -> TrackMessageModel {
        match *self {
            TrackMessage::ChannelVoice(m) => TrackMessageModel::ChannelVoice(m),
            TrackMessage::SystemExclusive(s) => TrackMessageModel::SystemExclusive(s@),
            TrackMessage::Meta(m) => TrackMessageModel::Meta(m@),
        }
    }
}

/// Some event emitted by a track in a MIDI file: a delta time — how long
/// after the previous event it happens, in ticks — and the message.
#[derive(Clone, Debug, PartialEq, Eq)]
pub struct TrackEvent {
    /// The delta time, in ticks.
    pub delta_time: u32,
    /// The message.
    pub event: TrackMessage,
}

/// The spec-level model of a [`TrackEvent`].
pub struct TrackEventModel {
    /// The delta time, in ticks.
    pub delta_time: u32,
    /// The model of the message.
    pub event: TrackMessageModel,
}

impl View for TrackEvent {
    type V = TrackEventModel;

    open spec fn view(&self) -> TrackEventModel {
        TrackEventModel { delta_time: self.delta_time, event: self.event@ }
    }
}

impl TrackEvent {
    /// Pair a delta time with a message.
    pub fn new(delta_time: u32, event: TrackMessage) -> (r: Self)
        ensures
            r@ == (TrackEventModel { delta_time, event: event@ }),
    {
        TrackEvent { delta_time, event }
    }

    /// Get the difference in time from the last event, in ticks.  What a
    /// tick lasts is decided by the file's [`Timing`](crate::Timing).
    pub fn delta_time(&self) -> (r: u32)
        ensures
            r == self@.delta_time,
    {
        self.delta_time
    }

    /// Get a reference to the message for the track event.
    pub fn event(&self) -> (r: &TrackMessage)
        ensures
            r@ == self@.event,
    {
        &self.event
    }

    /// Take the message out of the track event.
    pub fn into_event(self) -> (r: TrackMessage)
        ensures
            r@ == self@.event,
    {
        self.event
    }
}

/// The channel with a given wire value, clamped to [`Channel::One`] for
/// values above 15.
pub fn channel_from_num(num: u8) -> (r: Channel)
    ensures
        num <= 15 ==> r.spec_byte() == num,
        num > 15 ==> r == Channel::One,
{
    match Channel::try_from_byte(num) {
        Some(c) => c,
        None => Channel::One,
    }
}

/// The note with a given MIDI key number.
pub fn note_from_midi_number(num: u8) -> (r: crate::note::Note)
    requires
        num < 0x80,
    ensures
        r.spec_byte() == num,
{
    match crate::note::Note::from_databyte(num) {
        Ok(n) => n,
        Err(_) => crate::note::Note::from_databyte_unchecked(0),
    }
}

/// A note-on track event on the given channel.
pub fn note_on_event(delta_ticks: u32, note: u8, velocity: u8, channel: u8) -> (r: TrackEvent)
    requires
        note < 0x80,
        velocity < 0x80,
        channel <= 15,
    ensures
        r@ == (TrackEventModel {
            delta_time: delta_ticks,
            event: TrackMessageModel::ChannelVoice(
                ChannelVoiceMessage::spec_make(
                    Channel::spec_from_byte(channel).unwrap(),
                    crate::message::VoiceEvent::NoteOn {
                        note: crate::note::Note(crate::bytes::DataByte(note)),
                        velocity: crate::message::Velocity(crate::bytes::DataByte(velocity)),
                    },
                ),
            ),
        }),
{
    let ch = channel_from_num(channel);
    let n = note_from_midi_number(note);
    let v = match crate::message::Velocity::new(velocity) {
        Ok(v) => v,
        Err(_) => crate::message::Velocity(DataByte::new_unchecked(0)),
    };
    let msg = ChannelVoiceMessage::new(
        ch,
        crate::message::VoiceEvent::NoteOn { note: n, velocity: v },
    );
    TrackEvent::new(delta_ticks, TrackMessage::ChannelVoice(msg))
}

/// A note-off track event with zero release velocity on the given
/// channel.
pub fn note_off_event(delta_ticks: u32, note: u8, channel: u8) -> (r: TrackEvent)
    requires
        note < 0x80,
        channel <= 15,
    ensures
        r@ == (TrackEventModel {
            delta_time: delta_ticks,
            event: TrackMessageModel::ChannelVoice(
                ChannelVoiceMessage::spec_make(
                    Channel::spec_from_byte(channel).unwrap(),
                    crate::message::VoiceEvent::NoteOff {
                        note: crate::note::Note(crate::bytes::DataByte(note)),
                        velocity: crate::message::Velocity(crate::bytes::DataByte(0)),
                    },
                ),
            ),
        }),
{
    let ch = channel_from_num(channel);
    let n = note_from_midi_number(note);
    let v = crate::message::Velocity(DataByte::new_unchecked(0));
    let msg = ChannelVoiceMessage::new(
        ch,
        crate::message::VoiceEvent::NoteOff { note: n, velocity: v },
    );
    TrackEvent::new(delta_ticks, TrackMessage::ChannelVoice(msg))
}

/// A tempo meta track event; values beyond the three tempo bytes wrap.
pub fn tempo_event(delta_ticks: u32, micros_per_quarter: u32) -> (r: TrackEvent)
    ensures
        r@ == (TrackEventModel {
            delta_time: delta_ticks,
            event: TrackMessageModel::Meta(
                MetaModel::Tempo(Tempo((micros_per_quarter % 0x100_0000) as u32)),
            ),
        }),
{
    let b0 = ((micros_per_quarter / 0x1_0000) % 0x100) as u8;
    let b1 = ((micros_per_quarter / 0x100) % 0x100) as u8;
    let b2 = (micros_per_quarter % 0x100) as u8;
    let tempo = Tempo((b0 as u32) * 0x1_0000 + (b1 as u32) * 0x100 + (b2 as u32));
    proof {
        assert(tempo.spec_micros() == micros_per_quarter % 0x100_0000) by (nonlinear_arith)
            requires
                b0 == (micros_per_quarter / 0x1_0000) % 0x100,
                b1 == (micros_per_quarter / 0x100) % 0x100,
                b2 == micros_per_quarter % 0x100,
                tempo.spec_micros() == b0 * 0x1_0000 + b1 * 0x100 + b2,
        ;
    }
    TrackEvent::new(delta_ticks, TrackMessage::Meta(MetaMessage::Tempo(tempo)))
}

} // verus!
