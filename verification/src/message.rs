//! Channel-voice messages and their value types.
//!
//! A channel-voice message couples a status byte — high nibble naming the
//! message kind, low nibble the channel — with the message's data bytes.
//! The body decoder here turns raw data bytes into a [`VoiceEvent`],
//! validating each data byte except for pitch bend, whose two bytes MIDI
//! files carry unchecked, least significant first.

use vstd::prelude::*;

use crate::bytes::{DataByte, StatusByte};
use crate::channel::Channel;
use crate::error::ParseError;
use crate::error::{ReadResult, ReaderError, ReaderErrorKind};
use crate::note::Note;

verus! {

/// How hard a key was pressed or released, a 7-bit value.
#[derive(Clone, Copy, Debug, Hash, PartialEq, Eq, Structural)]
pub struct Velocity(pub DataByte);

impl Velocity {
    /// The 7-bit value, for contracts.
    pub open spec fn spec_byte(&self) -> u8 {
        self.0.spec_value()
    }

    /// Check a new velocity; succeeds exactly on bytes below 0x80.
    pub fn new(byte: u8) -> (r: Result<Self, ParseError>)
        ensures
            byte < 0x80 ==> r == Ok::<Velocity, ParseError>(Velocity(DataByte(byte))),
            byte >= 0x80 ==> r == Err::<Velocity, ParseError>(ParseError::InvalidDataByte(byte)),
    {
        match DataByte::new(byte) {
            Ok(b) => Ok(Velocity(b)),
            Err(e) => Err(e),
        }
    }

    /// The underlying 7-bit value.
    pub fn byte(&self) -> (r: u8)
        ensures
            r == self.spec_byte(),
    {
        self.0.value()
    }
}

/// A program (patch) number, a 7-bit value.
#[derive(Clone, Copy, Debug, Hash, PartialEq, Eq, Structural)]
pub struct Program(pub DataByte);

impl Program {
    /// The 7-bit value, for contracts.
    pub open spec fn spec_byte(&self) -> u8 {
        self.0.spec_value()
    }

    /// Check a new program number; succeeds exactly on bytes below 0x80.
    pub fn new(byte: u8) -> (r: Result<Self, ParseError>)
        ensures
            byte < 0x80 ==> r == Ok::<Program, ParseError>(Program(DataByte(byte))),
            byte >= 0x80 ==> r == Err::<Program, ParseError>(ParseError::InvalidDataByte(byte)),
    {
        match DataByte::new(byte) {
            Ok(b) => Ok(Program(b)),
            Err(e) => Err(e),
        }
    }

    /// The underlying 7-bit value.
    pub fn byte(&self) -> (r: u8)
        ensures
            r == self.spec_byte(),
    {
        self.0.value()
    }
}

/// A control-change pair: which controller, and its new value.
#[derive(Clone, Copy, Debug, Hash, PartialEq, Eq, Structural)]
pub struct Controller {
    /// The controller number.
    pub controller: DataByte,
    /// The value written to it.
    pub value: DataByte,
}

impl Controller {
    /// A controller identified only by its number.
    pub fn other(controller: DataByte, value: DataByte) -> (r: Self)
        ensures
            r == (Controller { controller, value }),
    {
        Controller { controller, value }
    }

    /// The two data bytes of the pair, controller number first.
    pub fn to_bytes(&self) -> (r: [u8; 2])
        ensures
            r@ == seq![self.controller.spec_value(), self.value.spec_value()],
    {
        let r = [self.controller.value(), self.value.value()];
        assert(r@ =~= seq![self.controller.spec_value(), self.value.spec_value()]);
        r
    }
}

/// A pitch-bend position.
///
/// MIDI files carry the two bytes least significant first, and the event
/// reader stores them without checking their high bits.
#[derive(Clone, Copy, Debug, Hash, PartialEq, Eq, Structural)]
pub struct PitchBend {
    /// The least significant seven bits, as read from the wire.
    pub lsb: u8,
    /// The most significant seven bits, as read from the wire.
    pub msb: u8,
}

impl PitchBend {
    /// Wrap two raw pitch-bend bytes without checking their high bits.
    pub fn new_unchecked(lsb: u8, msb: u8) -> (r: Self)
        ensures
            r == (PitchBend { lsb, msb }),
    {
        PitchBend { lsb, msb }
    }

    /// The least significant byte, as read first from the wire.
    pub fn lsb(&self) -> (r: u8)
        ensures
            r == self.lsb,
    {
        self.lsb
    }

    /// The most significant byte, as read second from the wire.
    pub fn msb(&self) -> (r: u8)
        ensures
            r == self.msb,
    {
        self.msb
    }
}

/// The channel-voice message kinds, with their data.
#[derive(Clone, Copy, Debug, PartialEq, Eq, Structural)]
pub enum VoiceEvent {
    /// A key was released.
    NoteOff {
        /// Which key.
        note: Note,
        /// How fast it was released.
        velocity: Velocity,
    },
    /// A key was pressed.  A velocity of zero means a release.
    NoteOn {
        /// Which key.
        note: Note,
        /// How hard it was pressed.
        velocity: Velocity,
    },
    /// Pressure on an already-held key changed.
    Aftertouch {
        /// Which key.
        note: Note,
        /// The new pressure.
        velocity: Velocity,
    },
    /// A controller moved.
    ControlChange(Controller),
    /// The channel switched to another program (patch).
    ProgramChange {
        /// The new program.
        program: Program,
    },
    /// Overall pressure on the channel changed.
    ChannelPressureAfterTouch {
        /// The new pressure.
        velocity: Velocity,
    },
    /// The pitch wheel moved.
    PitchBend(PitchBend),
}

impl VoiceEvent {
    /// The high nibble of the status byte that announces this kind of
    /// message.
    pub open spec fn spec_status_nibble(&self) -> u8 {
        match *self {
            VoiceEvent::NoteOff { .. } => 0x8,
            VoiceEvent::NoteOn { .. } => 0x9,
            VoiceEvent::Aftertouch { .. } => 0xA,
            VoiceEvent::ControlChange(_) => 0xB,
            VoiceEvent::ProgramChange { .. } => 0xC,
            VoiceEvent::ChannelPressureAfterTouch { .. } => 0xD,
            VoiceEvent::PitchBend(_) => 0xE,
        }
    }

    /// The high nibble of the status byte that announces this kind of
    /// message.
    pub fn status_nibble(&self) -> (r: u8)
        ensures
            r == self.spec_status_nibble(),
            0x8 <= r <= 0xE,
    {
        match *self {
            VoiceEvent::NoteOff { .. } => 0x8,
            VoiceEvent::NoteOn { .. } => 0x9,
            VoiceEvent::Aftertouch { .. } => 0xA,
            VoiceEvent::ControlChange(_) => 0xB,
            VoiceEvent::ProgramChange { .. } => 0xC,
            VoiceEvent::ChannelPressureAfterTouch { .. } => 0xD,
            VoiceEvent::PitchBend(_) => 0xE,
        }
    }

    /// The note a sounding key press names: `Some` for a note-on with
    /// nonzero velocity.
    pub open spec fn spec_is_note_on(&self) -> Option<Note> {
        match *self {
            VoiceEvent::NoteOn { note, velocity } => if velocity.spec_byte() != 0 {
                Some(note)
            } else {
                None
            },
            _ => None,
        }
    }

    /// The note a key release names: a note-off, or a note-on with zero
    /// velocity.
    pub open spec fn spec_is_note_off(&self) -> Option<Note> {
        match *self {
            VoiceEvent::NoteOff { note, .. } => Some(note),
            VoiceEvent::NoteOn { note, velocity } => if velocity.spec_byte() == 0 {
                Some(note)
            } else {
                None
            },
            _ => None,
        }
    }

    /// The note the event speaks of, if it has one.
    pub open spec fn spec_note(&self) -> Option<Note> {
        match *self {
            VoiceEvent::NoteOff { note, .. } => Some(note),
            VoiceEvent::NoteOn { note, .. } => Some(note),
            VoiceEvent::Aftertouch { note, .. } => Some(note),
            _ => None,
        }
    }

    /// Returns `Some(note)` if the note is turning on: a note-on with
    /// nonzero velocity.
    pub fn is_note_on(&self) -> (r: Option<Note>)
        ensures
            r == self.spec_is_note_on(),
    {
        match *self {
            VoiceEvent::NoteOn { note, velocity } => if velocity.byte() != 0 {
                Some(note)
            } else {
                None
            },
            _ => None,
        }
    }

    /// Returns `Some(note)` if the note is turning off: a note-off, or a
    /// note-on with zero velocity.
    pub fn is_note_off(&self) -> (r: Option<Note>)
        ensures
            r == self.spec_is_note_off(),
    {
        match *self {
            VoiceEvent::NoteOff { note, .. } => Some(note),
            VoiceEvent::NoteOn { note, velocity } => if velocity.byte() == 0 {
                Some(note)
            } else {
                None
            },
            _ => None,
        }
    }

    /// Returns the note if the event has one.
    pub fn note(&self) -> (r: Option<Note>)
        ensures
            r == self.spec_note(),
    {
        match *self {
            VoiceEvent::NoteOff { note, .. } => Some(note),
            VoiceEvent::NoteOn { note, .. } => Some(note),
            VoiceEvent::Aftertouch { note, .. } => Some(note),
            _ => None,
        }
    }
}

/// The outcome of decoding a channel-voice message body from the front of
/// a byte sequence, given its status byte.
#[derive(Clone, Copy, Debug, PartialEq, Eq, Structural)]
pub enum VoiceOutcome {
    /// A decoded event and the count of data bytes it consumed.
    Event(VoiceEvent, usize),
    /// The byte at the given index was invalid.
    Invalid(usize, ParseError),
    /// The sequence ended before the message's data bytes did.
    Short,
}

/// What decoding a channel-voice body from the front of `s` yields, for a
/// status byte with high nibble `status / 16`.
///
/// Note-off, note-on, aftertouch and control change take two validated
/// data bytes; program change and channel pressure take one; pitch bend
/// takes two bytes unvalidated, least significant first.  A high nibble
/// outside `0x8..=0xE` is no channel-voice message.
pub open spec fn spec_voice(status: u8, s: Seq<u8>) -> VoiceOutcome {
    let nibble = status / 16;
    if nibble == 0x8 || nibble == 0x9 || nibble == 0xA || nibble == 0xB {
        if s.len() < 1 {
            VoiceOutcome::Short
        } else if s[0] >= 0x80 {
            VoiceOutcome::Invalid(0, ParseError::InvalidDataByte(s[0]))
        } else if s.len() < 2 {
            VoiceOutcome::Short
        } else if s[1] >= 0x80 {
            VoiceOutcome::Invalid(1, ParseError::InvalidDataByte(s[1]))
        } else {
            let ev = if nibble == 0x8 {
                VoiceEvent::NoteOff { note: Note(DataByte(s[0])), velocity: Velocity(DataByte(s[1])) }
            } else if nibble == 0x9 {
                VoiceEvent::NoteOn { note: Note(DataByte(s[0])), velocity: Velocity(DataByte(s[1])) }
            } else if nibble == 0xA {
                VoiceEvent::Aftertouch { note: Note(DataByte(s[0])), velocity: Velocity(DataByte(s[1])) }
            } else {
                VoiceEvent::ControlChange(
                    Controller { controller: DataByte(s[0]), value: DataByte(s[1]) },
                )
            };
            VoiceOutcome::Event(ev, 2)
        }
    } else if nibble == 0xC || nibble == 0xD {
        if s.len() < 1 {
            VoiceOutcome::Short
        } else if s[0] >= 0x80 {
            VoiceOutcome::Invalid(0, ParseError::InvalidDataByte(s[0]))
        } else if nibble == 0xC {
            VoiceOutcome::Event(VoiceEvent::ProgramChange { program: Program(DataByte(s[0])) }, 1)
        } else {
            VoiceOutcome::Event(
                VoiceEvent::ChannelPressureAfterTouch { velocity: Velocity(DataByte(s[0])) },
                1,
            )
        }
    } else if nibble == 0xE {
        if s.len() < 2 {
            VoiceOutcome::Short
        } else {
            VoiceOutcome::Event(
                VoiceEvent::PitchBend(PitchBend { lsb: s[0], msb: s[1] }),
                2,
            )
        }
    } else {
        VoiceOutcome::Invalid(0, ParseError::InvalidStatusByte(status))
    }
}

/// A MIDI channel-voice message: a status byte — kind in the high nibble,
/// channel in the low — and the event it announces.
#[derive(Clone, Copy, Debug, PartialEq, Eq, Structural)]
pub struct ChannelVoiceMessage {
    /// The status byte; its low nibble is the channel.
    pub status: StatusByte,
    /// The MIDI message type and associated data.
    pub event: VoiceEvent,
}

impl ChannelVoiceMessage {
    /// The status byte, for contracts.
    pub open spec fn spec_status(&self) -> u8 {
        self.status.spec_byte()
    }

    /// The message a given channel and event make, for contracts: the
    /// event's nibble above the channel's wire value.
    pub open spec fn spec_make(channel: Channel, message: VoiceEvent) -> ChannelVoiceMessage {
        ChannelVoiceMessage {
            status: StatusByte((channel.spec_byte() + message.spec_status_nibble() * 16) as u8),
            event: message,
        }
    }

    /// Create a new channel voice event from the channel and associated
    /// event type.
    pub fn new(channel: Channel, message: VoiceEvent) -> (r: Self)
        ensures
            r == ChannelVoiceMessage::spec_make(channel, message),
            r.spec_status() / 16 == message.spec_status_nibble(),
            r.spec_status() % 16 == channel.spec_byte(),
    {
        let status = channel.to_byte() + message.status_nibble() * 16;
        ChannelVoiceMessage { status: StatusByte::new_unchecked(status), event: message }
    }

    /// Decode the data bytes of a channel-voice message with the given
    /// status, starting at `pos`.
    ///
    /// The decoded message pairs the status with the event; the returned
    /// position sits just past the consumed data bytes.  The error is
    /// out-of-bounds at the end of the buffer when the data bytes run
    /// out, and names the offending byte otherwise, exactly as
    /// [`spec_voice`] lays out.
    pub fn read(status: StatusByte, bytes: &[u8], pos: usize) -> (r: ReadResult<
        (ChannelVoiceMessage, usize),
    >)
        requires
            pos <= bytes@.len(),
        ensures
            match spec_voice(status.spec_byte(), bytes@.skip(pos as int)) {
                VoiceOutcome::Event(ev, n) => r == Ok::<_, ReaderError>(
                    (ChannelVoiceMessage { status, event: ev }, (pos + n) as usize),
                ) && pos + n <= bytes@.len(),
                VoiceOutcome::Invalid(i, e) => r == Err::<(ChannelVoiceMessage, usize), _>(
                    ReaderError {
                        position: (pos + i) as usize,
                        kind: ReaderErrorKind::ParseError(e),
                    },
                ),
                VoiceOutcome::Short => r == Err::<(ChannelVoiceMessage, usize), _>(
                    ReaderError {
                        position: bytes@.len() as usize,
                        kind: ReaderErrorKind::OutOfBounds,
                    },
                ),
            },
    {
        let nibble = status.byte() / 16;
        let remaining = bytes.len() - pos;
        if nibble == 0x8 || nibble == 0x9 || nibble == 0xA || nibble == 0xB {
            if remaining < 1 {
                return Err(ReaderError::oob(bytes.len()));
            }
            let b0 = bytes[pos];
            if b0 >= 0x80 {
                return Err(ReaderError::parse_error(pos, ParseError::InvalidDataByte(b0)));
            }
            if remaining < 2 {
                return Err(ReaderError::oob(bytes.len()));
            }
            let b1 = bytes[pos + 1];
            if b1 >= 0x80 {
                return Err(ReaderError::parse_error(pos + 1, ParseError::InvalidDataByte(b1)));
            }
            let ev = if nibble == 0x8 {
                VoiceEvent::NoteOff {
                    note: Note(DataByte::new_unchecked(b0)),
                    velocity: Velocity(DataByte::new_unchecked(b1)),
                }
            } else if nibble == 0x9 {
                VoiceEvent::NoteOn {
                    note: Note(DataByte::new_unchecked(b0)),
                    velocity: Velocity(DataByte::new_unchecked(b1)),
                }
            } else if nibble == 0xA {
                VoiceEvent::Aftertouch {
                    note: Note(DataByte::new_unchecked(b0)),
                    velocity: Velocity(DataByte::new_unchecked(b1)),
                }
            } else {
                VoiceEvent::ControlChange(
                    Controller {
                        controller: DataByte::new_unchecked(b0),
                        value: DataByte::new_unchecked(b1),
                    },
                )
            };
            Ok((ChannelVoiceMessage { status, event: ev }, pos + 2))
        } else if nibble == 0xC || nibble == 0xD {
            if remaining < 1 {
                return Err(ReaderError::oob(bytes.len()));
            }
            let b0 = bytes[pos];
            if b0 >= 0x80 {
                return Err(ReaderError::parse_error(pos, ParseError::InvalidDataByte(b0)));
            }
            let ev = if nibble == 0xC {
                VoiceEvent::ProgramChange { program: Program(DataByte::new_unchecked(b0)) }
            } else {
                VoiceEvent::ChannelPressureAfterTouch {
                    velocity: Velocity(DataByte::new_unchecked(b0)),
                }
            };
            Ok((ChannelVoiceMessage { status, event: ev }, pos + 1))
        } else if nibble == 0xE {
            if remaining < 2 {
                return Err(ReaderError::oob(bytes.len()));
            }
            // little-endian: lsb first, then msb — the opposite of the
            // file's big-endian header fields
            let lsb = bytes[pos];
            let msb = bytes[pos + 1];
            Ok((
                ChannelVoiceMessage {
                    status,
                    event: VoiceEvent::PitchBend(PitchBend { lsb, msb }),
                },
                pos + 2,
            ))
        } else {
            Err(ReaderError::parse_error(pos, ParseError::InvalidStatusByte(status.byte())))
        }
    }

    /// Build a channel-voice message from a status byte and its data
    /// bytes, as streamed live.
    ///
    /// The status must announce a channel-voice message.  Data bytes that
    /// run out give [`ParseError::MissingData`]; an invalid data byte
    /// names itself.
    pub fn from_status_and_data(status: u8, data: &[u8]) -> (r: Result<Self, ParseError>)
        requires
            0x80 <= status <= 0xEF,
        ensures
            match spec_voice(status, data@) {
                VoiceOutcome::Event(ev, _) => r == Ok::<_, ParseError>(
                    ChannelVoiceMessage { status: StatusByte(status), event: ev },
                ),
                VoiceOutcome::Invalid(_, e) => r == Err::<ChannelVoiceMessage, _>(e),
                VoiceOutcome::Short => r == Err::<ChannelVoiceMessage, _>(
                    ParseError::MissingData,
                ),
            },
    {
        assert(data@.skip(0) =~= data@);
        match Self::read(StatusByte::new_unchecked(status), data, 0) {
            Ok((msg, _)) => Ok(msg),
            Err(e) => {
                match e.kind {
                    ReaderErrorKind::ParseError(p) => Err(p),
                    _ => Err(ParseError::MissingData),
                }
            },
        }
    }

    /// Get the channel for the event.
    pub fn channel(&self) -> (r: Channel)
        ensures
            r.spec_byte() == self.spec_status() % 16,
    {
        let b = self.status.byte();
        proof {
            let sb = self.status.spec_byte();
            assert(sb & 0x0F == sb % 16) by (bit_vector);
        }
        Channel::from_status(b)
    }

    /// Returns `Some(note)` if the note is on.  This excludes a note-on
    /// with zero velocity.
    pub fn is_note_on(&self) -> (r: Option<Note>)
        ensures
            r == self.event.spec_is_note_on(),
    {
        self.event.is_note_on()
    }

    /// Returns `Some(note)` if the note is off.  This includes a note-on
    /// with zero velocity.
    pub fn is_note_off(&self) -> (r: Option<Note>)
        ensures
            r == self.event.spec_is_note_off(),
    {
        self.event.is_note_off()
    }

    /// Returns the key if the event has one.
    pub fn note(&self) -> (r: Option<Note>)
        ensures
            r == self.event.spec_note(),
    {
        self.event.note()
    }

    /// Returns the velocity if the event type has one.
    pub fn velocity(&self) -> (r: Option<&Velocity>)
        ensures
            match self.event {
                VoiceEvent::NoteOn { velocity, .. } => r == Some(&velocity),
                VoiceEvent::NoteOff { velocity, .. } => r == Some(&velocity),
                VoiceEvent::Aftertouch { velocity, .. } => r == Some(&velocity),
                VoiceEvent::ChannelPressureAfterTouch { velocity } => r == Some(&velocity),
                _ => r is None,
            },
    {
        match &self.event {
            VoiceEvent::NoteOn { velocity, .. } => Some(velocity),
            VoiceEvent::NoteOff { velocity, .. } => Some(velocity),
            VoiceEvent::Aftertouch { velocity, .. } => Some(velocity),
            VoiceEvent::ChannelPressureAfterTouch { velocity } => Some(velocity),
            _ => None,
        }
    }

    /// Returns the first data byte of the message; every channel-voice
    /// message has one.
    pub fn data_1_byte(&self) -> (r: u8)
        ensures
            match self.event {
                VoiceEvent::NoteOn { note, .. } => r == note.spec_byte(),
                VoiceEvent::NoteOff { note, .. } => r == note.spec_byte(),
                VoiceEvent::Aftertouch { note, .. } => r == note.spec_byte(),
                VoiceEvent::ControlChange(c) => r == c.controller.spec_value(),
                VoiceEvent::ProgramChange { program } => r == program.spec_byte(),
                VoiceEvent::ChannelPressureAfterTouch { velocity } => r == velocity.spec_byte(),
                VoiceEvent::PitchBend(p) => r == p.lsb,
            },
    {
        match &self.event {
            VoiceEvent::NoteOn { note, .. } => note.byte(),
            VoiceEvent::NoteOff { note, .. } => note.byte(),
            VoiceEvent::Aftertouch { note, .. } => note.byte(),
            VoiceEvent::ControlChange(c) => c.controller.value(),
            VoiceEvent::ProgramChange { program } => program.byte(),
            VoiceEvent::ChannelPressureAfterTouch { velocity } => velocity.byte(),
            VoiceEvent::PitchBend(p) => p.lsb(),
        }
    }

    /// Returns the second data byte of the message if it has one.
    pub fn data_2_byte(&self) -> (r: Option<u8>)
        ensures
            match self.event {
                VoiceEvent::NoteOn { velocity, .. } => r == Some(velocity.spec_byte()),
                VoiceEvent::NoteOff { velocity, .. } => r == Some(velocity.spec_byte()),
                VoiceEvent::Aftertouch { velocity, .. } => r == Some(velocity.spec_byte()),
                VoiceEvent::ChannelPressureAfterTouch { velocity } => r == Some(
                    velocity.spec_byte(),
                ),
                VoiceEvent::ControlChange(c) => r == Some(c.value.spec_value()),
                VoiceEvent::PitchBend(p) => r == Some(p.msb),
                _ => r is None,
            },
    {
        match &self.event {
            VoiceEvent::NoteOn { velocity, .. } => Some(velocity.byte()),
            VoiceEvent::NoteOff { velocity, .. } => Some(velocity.byte()),
            VoiceEvent::Aftertouch { velocity, .. } => Some(velocity.byte()),
            VoiceEvent::ChannelPressureAfterTouch { velocity } => Some(velocity.byte()),
            VoiceEvent::ControlChange(c) => Some(c.value.value()),
            VoiceEvent::PitchBend(p) => Some(p.msb()),
            _ => None,
        }
    }

    /// References the status byte of the event: the high nibble is the
    /// voice event kind and the low nibble is the channel.
    pub fn status(&self) -> (r: u8)
        ensures
            r == self.spec_status(),
    {
        self.status.byte()
    }

    /// References the voice event for the message.
    pub fn event(&self) -> (r: &VoiceEvent)
        ensures
            r == self.event,
    {
        &self.event
    }
}

} // verus!
