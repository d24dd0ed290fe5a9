//! Decoder for Standard MIDI Files (SMF).
//!
//! The crate reads a chunked SMF byte buffer into a structured file value and
//! projects that value into a stream of events tagged with absolute
//! microsecond timestamps.  Every step of the pipeline — validated byte
//! wrappers, variable-length-quantity decoding, the running-status event
//! reader, chunk assembly, tick accumulation and the tempo/SMPTE timing
//! model — is specified by contracts and verified.

pub mod builder;
pub mod bytes;
pub mod channel;
pub mod chunks;
pub mod error;
pub mod events;
pub mod file;
pub mod message;
pub mod micros;
pub mod note;
pub mod reader;
pub mod smpte_offset;
pub mod tempo;
pub mod time;
pub mod track;
pub mod timing;
pub mod vlq;

pub use builder::{ChunkEvent, Format, FormatStage, FormatType, MidiFile, MidiFileBuilder, RawFormat, RawHeaderChunk, RawTrackChunk, TrackChunkHeader, UnknownChunk};
pub use bytes::{DataByte, MidiMessageBytes, StatusByte};
pub use channel::Channel;
pub use chunks::{FileEvent, Reader};
pub use file::MidiFileHeader;
pub use events::{channel_from_num, note_from_midi_number, note_off_event, note_on_event, tempo_event, LiveEvent, MetaMessage, SystemCommonMessage, SystemExclusiveMessage, TimeSignature, TrackEvent, TrackMessage};
pub use message::{ChannelVoiceMessage, Controller, PitchBend, Program, Velocity, VoiceEvent};
pub use micros::{Micros, UMicros};
pub use note::{Key, Note, Octave};
pub use smpte_offset::SmpteOffset;
pub use tempo::Tempo;
pub use time::{Ticked, Timed};
pub use track::{Track, TrackInfo};
pub use timing::{SmpteFps, SmpteHeader, TicksPerQuarterNote, Timing};
pub use error::{
    ChunkError, FileError, HeaderError, ParseError, ReadResult, ReaderError, ReaderErrorKind,
    SmpteError,
};
