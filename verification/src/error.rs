//! Error taxonomy of the decoder.
//!
//! Every decode failure is a [`ReaderError`]: the byte offset at which the
//! problem was detected, together with a [`ReaderErrorKind`].  Out-of-bounds
//! reads (the source ended mid-item) are distinguished from structural and
//! parse errors, and a clean end of the chunk stream is its own kind so that
//! callers can tell a finished file from a truncated one.

use vstd::prelude::*;

verus! {

/// An error raised while interpreting the five bytes of an SMPTE offset
/// meta event, or the frame-rate byte of an SMPTE header timing.
#[derive(Clone, Copy, Debug, PartialEq, Eq, Structural)]
pub enum SmpteError {
    /// The meta payload did not hold exactly five bytes.
    Length(usize),
    /// The frame-rate bits of the first offset byte were not one of the
    /// four defined rates.
    TrackFrame(u8),
    /// The frame-rate byte of a header timing was not one of -24, -25,
    /// -29 or -30.
    HeaderFrameTime(i8),
    /// The hour field exceeded 23.
    HourOffset(u8),
    /// The minute field exceeded 59.
    MinuteOffset(u8),
    /// The second field exceeded 59.
    SecondOffset(u8),
    /// The subframe field exceeded 99.
    Subframe(u8),
}

/// A structural error raised while assembling chunks into a file.
#[derive(Clone, Copy, Debug, PartialEq, Eq, Structural)]
pub enum ChunkError {
    /// A second header chunk arrived after a timing was already recorded.
    DuplicateHeader,
    /// A header chunk arrived while a format was already known.
    DuplicateFormat,
    /// A second track arrived for a single-track format.
    MultipleTracksForSingleMultiChannel,
}

/// An error raised when finishing a file from the collected chunks.
#[derive(Clone, Copy, Debug, PartialEq, Eq, Structural)]
pub enum FileError {
    /// No format was ever resolved: the chunk stream ended too early.
    NoFormat,
    /// No header chunk was ever seen, so the file has no timing.
    NoTiming,
}

/// An error raised while reading the six fixed bytes of a header chunk.
#[derive(Clone, Copy, Debug, PartialEq, Eq, Structural)]
pub enum HeaderError {
    /// The declared format was not 0, 1 or 2.
    InvalidFormat(u16),
    /// The declared header length was shorter than the six fixed bytes.
    InvalidLength(u32),
}

/// A parse error: the bytes were readable but did not form a valid item.
#[derive(Clone, Copy, Debug, PartialEq, Eq, Structural)]
pub enum ParseError {
    /// A status byte was expected but the byte had no leading 1, or its
    /// high nibble named no channel-voice message.
    InvalidStatusByte(u8),
    /// A data byte was expected but the byte had a leading 1.
    InvalidDataByte(u8),
    /// A variable-length quantity ran past its four-byte maximum.
    InvalidVlq,
    /// A data byte arrived in status position with no running status stored.
    NoRunningStatus,
    /// A live message's data bytes ran out before the message was complete.
    MissingData,
    /// A structural chunk error.
    Chunk(ChunkError),
    /// An error finishing the file.
    File(FileError),
    /// An SMPTE field error.
    Smpte(SmpteError),
    /// A header chunk error.
    Header(HeaderError),
}

/// A kind of error that a reader can produce.
#[derive(Clone, Copy, Debug, PartialEq, Eq, Structural)]
pub enum ReaderErrorKind {
    /// Parsing errors.
    ParseError(ParseError),
    /// Reading out of bounds: the source ended in the middle of an item.
    OutOfBounds,
    /// Clean end of the chunk stream: no more chunks where one could start.
    Eof,
}

impl ReaderErrorKind {
    /// Wrap a chunk error as a parse error kind.
    pub fn chunk(chunk_err: ChunkError) -> (r: Self)
        ensures
            r == ReaderErrorKind::ParseError(ParseError::Chunk(chunk_err)),
    {
        ReaderErrorKind::ParseError(ParseError::Chunk(chunk_err))
    }
}

/// An error produced while reading bytes into the MIDI representation:
/// a position and a kind.
#[derive(Clone, Copy, Debug, PartialEq, Eq, Structural)]
pub struct ReaderError {
    /// The byte offset at which the problem was detected.
    pub position: usize,
    /// What went wrong.
    pub kind: ReaderErrorKind,
}

impl ReaderError {
    /// Create a reader error from a position and kind.
    pub fn new(position: usize, kind: ReaderErrorKind) -> (r: Self)
        ensures
            r == (ReaderError { position, kind }),
    {
        ReaderError { position, kind }
    }

    /// True if the source was exhausted in the middle of an item.
    pub fn is_out_of_bounds(&self) -> (r: bool)
        ensures
            r == (self.kind == ReaderErrorKind::OutOfBounds),
    {
        matches!(self.kind, ReaderErrorKind::OutOfBounds)
    }

    /// True if the chunk stream ended cleanly where a chunk could start.
    pub fn is_eof(&self) -> (r: bool)
        ensures
            r == (self.kind == ReaderErrorKind::Eof),
    {
        matches!(self.kind, ReaderErrorKind::Eof)
    }

    /// Returns the error kind of the reader.
    pub fn error_kind(&self) -> (r: &ReaderErrorKind)
        ensures
            r == self.kind,
    {
        &self.kind
    }

    /// Returns the position where the read error occurred.
    pub fn position(&self) -> (r: usize)
        ensures
            r == self.position,
    {
        self.position
    }

    /// Create a new invalid data error.
    pub fn parse_error(position: usize, error: ParseError) -> (r: Self)
        ensures
            r == (ReaderError { position, kind: ReaderErrorKind::ParseError(error) }),
    {
        ReaderError { position, kind: ReaderErrorKind::ParseError(error) }
    }

    /// Create a new out of bounds error.
    pub fn oob(position: usize) -> (r: Self)
        ensures
            r == (ReaderError { position, kind: ReaderErrorKind::OutOfBounds }),
    {
        ReaderError { position, kind: ReaderErrorKind::OutOfBounds }
    }

    /// Create a new clean end-of-stream error.
    pub fn eof(position: usize) -> (r: Self)
        ensures
            r == (ReaderError { position, kind: ReaderErrorKind::Eof }),
    {
        ReaderError { position, kind: ReaderErrorKind::Eof }
    }
}

/// The read result type (see [`ReaderError`]).
pub type ReadResult<T> = Result<T, ReaderError>;

} // verus!
