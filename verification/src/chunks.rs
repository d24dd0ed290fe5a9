//! The chunk reader: 4-byte-typed, length-prefixed chunks, read either
//! whole or as a granular stream of file events.
//!
//! A [`Reader`] walks an in-memory byte buffer.  [`Reader::read_chunk`]
//! hands out whole chunks — header, track body, unknown, or a clean
//! end-of-stream value.  [`Reader::read_event`] is finer: a track chunk
//! yields its header first and then one event per call until its
//! declared byte count is spent, with a fresh running status per track.

use vstd::prelude::*;

use crate::builder::{ChunkEvent, ChunkEventModel, RawFormat, RawHeaderChunk, RawTrackChunk, TrackChunkHeader, UnknownChunk, UnknownChunkModel};
use crate::bytes::StatusByte;
use crate::error::{HeaderError, ParseError, ReadResult, ReaderError, ReaderErrorKind};
use crate::events::{TrackEvent, TrackEventModel};
use crate::reader::{EventOutcome, read_track_event, spec_event};
use crate::timing::Timing;

verus! {

/// The big-endian value of two bytes of `s`.
pub open spec fn be16(s: Seq<u8>, i: int) -> u16 {
    (s[i] * 0x100 + s[i + 1]) as u16
}

/// The big-endian value of four bytes of `s`.
pub open spec fn be32(s: Seq<u8>, i: int) -> u32 {
    (s[i] * 0x100_0000 + s[i + 1] * 0x1_0000 + s[i + 2] * 0x100 + s[i + 3]) as u32
}

/// The outcome of parsing the six fixed header bytes, sitting at offset 8
/// of the chunk.
pub enum HeaderOutcome {
    /// The parsed header.
    Header(RawHeaderChunk),
    /// A failure at the given offset within the chunk.
    Failure(int, ReaderErrorKind),
}

/// What the six fixed bytes of a header chunk denote: a format word that
/// must be 0, 1 or 2, a big-endian track count, and the two timing bytes.
pub open spec fn spec_header_fields(s: Seq<u8>) -> HeaderOutcome {
    let f = be16(s, 8);
    let nt = be16(s, 10);
    if f > 2 {
        HeaderOutcome::Failure(
            8,
            ReaderErrorKind::ParseError(ParseError::Header(HeaderError::InvalidFormat(f))),
        )
    } else {
        let format = if f == 0 {
            RawFormat::SingleMultiChannel
        } else if f == 1 {
            RawFormat::Simultaneous(nt)
        } else {
            RawFormat::SequentiallyIndependent(nt)
        };
        match Timing::spec_read(s[12], s[13]) {
            Ok(timing) => HeaderOutcome::Header(RawHeaderChunk { format, timing }),
            Err(e) => HeaderOutcome::Failure(12, ReaderErrorKind::ParseError(e)),
        }
    }
}

/// The outcome of reading one whole chunk from the front of `s`.
pub enum ChunkOutcome {
    /// The chunk and how many bytes it spanned.
    Chunk(ChunkEventModel, int),
    /// A failure at the given position relative to the front.
    Failure(int, ReaderErrorKind),
}

/// What reading one whole chunk from the front of `s` yields.
///
/// An empty front is the clean end of the stream.  Otherwise four type
/// bytes and a big-endian length must follow.  A `"MThd"` chunk must
/// declare at least the six fixed bytes, which are parsed; extra declared
/// bytes are skipped.  A `"MTrk"` chunk carries its body verbatim, and
/// any other tag is retained as an unknown chunk.  A chunk cut short by
/// the end of the buffer is out of bounds, reported at the buffer's end.
pub open spec fn spec_chunk(s: Seq<u8>) -> ChunkOutcome {
    if s.len() == 0 {
        ChunkOutcome::Chunk(ChunkEventModel::Eof, 0)
    } else if s.len() < 8 {
        ChunkOutcome::Failure(s.len() as int, ReaderErrorKind::OutOfBounds)
    } else {
        let tag = s.subrange(0, 4);
        let len = be32(s, 4) as int;
        if tag == mthd() {
            if len < 6 {
                ChunkOutcome::Failure(
                    4,
                    ReaderErrorKind::ParseError(
                        ParseError::Header(HeaderError::InvalidLength(be32(s, 4))),
                    ),
                )
            } else if s.len() < 8 + len {
                ChunkOutcome::Failure(s.len() as int, ReaderErrorKind::OutOfBounds)
            } else {
                match spec_header_fields(s) {
                    HeaderOutcome::Header(h) => ChunkOutcome::Chunk(
                        ChunkEventModel::Header(h),
                        8 + len,
                    ),
                    HeaderOutcome::Failure(p, k) => ChunkOutcome::Failure(p, k),
                }
            }
        } else if s.len() < 8 + len {
            ChunkOutcome::Failure(s.len() as int, ReaderErrorKind::OutOfBounds)
        } else if tag == mtrk() {
            ChunkOutcome::Chunk(ChunkEventModel::Track(s.subrange(8, 8 + len)), 8 + len)
        } else {
            ChunkOutcome::Chunk(
                ChunkEventModel::Unknown(
                    UnknownChunkModel { tag, data: s.subrange(8, 8 + len) },
                ),
                8 + len,
            )
        }
    }
}

/// The four type bytes of a header chunk, `"MThd"`.
pub open spec fn mthd() -> Seq<u8> {
    seq![0x4Du8, 0x54u8, 0x68u8, 0x64u8]
}

/// The four type bytes of a track chunk, `"MTrk"`.
pub open spec fn mtrk() -> Seq<u8> {
    seq![0x4Du8, 0x54u8, 0x72u8, 0x6Bu8]
}

/// One event of the granular file stream.
#[derive(Clone, Debug, PartialEq, Eq)]
pub enum FileEvent {
    /// A header chunk, parsed whole.
    Header(RawHeaderChunk),
    /// The start of a track chunk: its declared body length.  The body's
    /// events follow, one per read.
    Track(TrackChunkHeader),
    /// One event of the current track's body.
    TrackEvent(TrackEvent),
    /// A chunk of unrecognized type, retained verbatim.
    Unknown(UnknownChunk),
}

/// The spec-level model of a [`FileEvent`].
pub enum FileEventModel {
    /// Model of [`FileEvent::Header`].
    Header(RawHeaderChunk),
    /// Model of [`FileEvent::Track`].
    Track(TrackChunkHeader),
    /// Model of [`FileEvent::TrackEvent`].
    TrackEvent(TrackEventModel),
    /// Model of [`FileEvent::Unknown`].
    Unknown(UnknownChunkModel),
}

impl View for FileEvent {
    type V = FileEventModel;

    open spec fn view(&self) -> FileEventModel {
        match *self {
            FileEvent::Header(h) => FileEventModel::Header(h),
            FileEvent::Track(t) => FileEventModel::Track(t),
            FileEvent::TrackEvent(e) => FileEventModel::TrackEvent(e@),
            FileEvent::Unknown(u) => FileEventModel::Unknown(u@),
        }
    }
}

/// The outcome of one granular read: the event, the bytes it consumed,
/// the track bytes then still pending, and the running status left
/// behind.
pub enum FileReadOutcome {
    /// A successful read.
    Ev(FileEventModel, int, u64, Option<StatusByte>),
    /// A failure at the given position relative to the front.
    Failure(int, ReaderErrorKind),
}

/// What one granular read from the front of `s` yields, with `rem` track
/// body bytes pending under running status `rs`.
///
/// Inside a track body, one track event is read; its span is taken off
/// the pending count, saturating at zero since nothing stops an event
/// from overrunning its chunk's declared length, and the running status
/// dies with the body's last byte.  Between chunks, a header or unknown
/// chunk is read whole; a track chunk yields only its header, arming the
/// pending count.  An empty front between chunks is the clean end of the
/// stream.
pub open spec fn spec_read_event(s: Seq<u8>, rem: u64, rs: Option<StatusByte>) -> FileReadOutcome {
    if rem > 0 {
        match spec_event(s, rs) {
            EventOutcome::Failure(p, k) => FileReadOutcome::Failure(p, k),
            EventOutcome::Event(m, n, rs2) => {
                let rem2: u64 = if rem > n {
                    (rem - n) as u64
                } else {
                    0
                };
                FileReadOutcome::Ev(
                    FileEventModel::TrackEvent(m),
                    n,
                    rem2,
                    if rem2 == 0 {
                        None
                    } else {
                        rs2
                    },
                )
            },
        }
    } else if s.len() == 0 {
        FileReadOutcome::Failure(0, ReaderErrorKind::Eof)
    } else if s.len() < 8 {
        FileReadOutcome::Failure(s.len() as int, ReaderErrorKind::OutOfBounds)
    } else {
        let tag = s.subrange(0, 4);
        let len = be32(s, 4) as int;
        if tag == mtrk() {
            FileReadOutcome::Ev(
                FileEventModel::Track(TrackChunkHeader { length: be32(s, 4) }),
                8,
                be32(s, 4) as u64,
                None,
            )
        } else {
            match spec_chunk(s) {
                ChunkOutcome::Failure(p, k) => FileReadOutcome::Failure(p, k),
                ChunkOutcome::Chunk(c, n) => {
                    match c {
                        ChunkEventModel::Header(h) => FileReadOutcome::Ev(
                            FileEventModel::Header(h),
                            n,
                            0,
                            None,
                        ),
                        ChunkEventModel::Unknown(u) => FileReadOutcome::Ev(
                            FileEventModel::Unknown(u),
                            n,
                            0,
                            None,
                        ),
                        _ => FileReadOutcome::Failure(0, ReaderErrorKind::OutOfBounds),
                    }
                },
            }
        }
    }
}

/// A stateful reader over an in-memory MIDI byte buffer.
///
/// One reader owns one pass: its position, how many bytes of the current
/// track body are still pending, and the running status scoped to that
/// body.
#[derive(Clone, Debug, PartialEq, Eq)]
pub struct Reader {
    /// The buffer being decoded.
    pub bytes: Vec<u8>,
    /// The byte offset the reader stands at.
    pub pos: usize,
    /// How many bytes of the current track body are still pending.
    pub track_remaining: u64,
    /// The running status, scoped to the current track body.
    pub running: Option<StatusByte>,
}

impl Reader {
    /// The buffer, for contracts.
    pub open spec fn spec_bytes(&self) -> Seq<u8> {
        self.bytes@
    }

    /// The invariant every reader keeps: its position never passes the
    /// buffer's end.
    pub open spec fn wf(&self) -> bool {
        self.pos <= self.bytes@.len()
    }

    /// The position, for contracts.
    pub open spec fn spec_pos(&self) -> usize {
        self.pos
    }

    /// The pending track body bytes, for contracts.
    pub open spec fn spec_track_remaining(&self) -> u64 {
        self.track_remaining
    }

    /// The stored running status, for contracts.
    pub open spec fn spec_running(&self) -> Option<StatusByte> {
        self.running
    }

    /// Create a reader over a copy of the given bytes.
    pub fn from_byte_slice(bytes: &[u8]) -> (r: Reader)
        ensures
            r.spec_bytes() == bytes@,
            r.spec_pos() == 0,
            r.spec_track_remaining() == 0,
            r.spec_running() is None,
            r.wf(),
    {
        let mut own: Vec<u8> = Vec::new();
        own.extend_from_slice(bytes);
        proof {
            assert(own@ =~= bytes@);
        }
        Reader { bytes: own, pos: 0, track_remaining: 0, running: None }
    }

    /// Create a reader owning the given bytes.
    pub fn from_bytes(bytes: Vec<u8>) -> (r: Reader)
        ensures
            r.spec_bytes() == bytes@,
            r.spec_pos() == 0,
            r.spec_track_remaining() == 0,
            r.spec_running() is None,
            r.wf(),
    {
        Reader { bytes, pos: 0, track_remaining: 0, running: None }
    }

    /// The byte offset the reader stands at.
    pub fn buffer_position(&self) -> (r: usize)
        ensures
            r == self.spec_pos(),
    {
        self.pos
    }

    /// Read the next granular file event, exactly as [`spec_read_event`]
    /// says of the remaining bytes and the reader's state.
    ///
    /// On failure the reader's position is unchanged, so the stream can
    /// be inspected; the pending count and running status are left in an
    /// unspecified state, as the pass is being abandoned.
    pub fn read_event(&mut self) -> (r: ReadResult<FileEvent>)
        requires
            old(self).wf(),
        ensures
            final(self).wf(),
            final(self).spec_bytes() == old(self).spec_bytes(),
            match spec_read_event(
                old(self).spec_bytes().skip(old(self).spec_pos() as int),
                old(self).spec_track_remaining(),
                old(self).spec_running(),
            ) {
                FileReadOutcome::Ev(m, n, rem2, rs2) => {
                    &&& r matches Ok(ev) && ev@ == m
                    &&& final(self).spec_pos() == old(self).spec_pos() + n
                    &&& final(self).spec_track_remaining() == rem2
                    &&& final(self).spec_running() == rs2
                    &&& old(self).spec_pos() + n <= old(self).spec_bytes().len()
                },
                FileReadOutcome::Failure(p, k) => {
                    &&& r == Err::<FileEvent, _>(
                        ReaderError { position: (old(self).spec_pos() + p) as usize, kind: k },
                    )
                    &&& final(self).spec_pos() == old(self).spec_pos()
                },
            },
    {
        let ghost s = self.bytes@.skip(self.pos as int);
        if self.track_remaining > 0 {
            let pos_before = self.pos;
            let mut running = self.running;
            match read_track_event(self.bytes.as_slice(), pos_before, &mut running) {
                Ok((ev, end)) => {
                    let n = end - pos_before;
                    let rem2: u64 = if self.track_remaining > (n as u64) {
                        self.track_remaining - (n as u64)
                    } else {
                        0
                    };
                    self.pos = end;
                    self.track_remaining = rem2;
                    self.running = if rem2 == 0 {
                        None
                    } else {
                        running
                    };
                    Ok(FileEvent::TrackEvent(ev))
                },
                Err(e) => {
                    self.running = running;
                    Err(e)
                },
            }
        } else {
            self.read_chunk_mode_event()
        }
    }

    /// The chunk-mode half of [`Reader::read_event`]: no track body is
    /// pending.
    fn read_chunk_mode_event(&mut self) -> (r: ReadResult<FileEvent>)
        requires
            old(self).wf(),
            old(self).spec_track_remaining() == 0,
        ensures
            final(self).wf(),
            final(self).spec_bytes() == old(self).spec_bytes(),
            match spec_read_event(
                old(self).spec_bytes().skip(old(self).spec_pos() as int),
                0,
                old(self).spec_running(),
            ) {
                FileReadOutcome::Ev(m, n, rem2, rs2) => {
                    &&& r matches Ok(ev) && ev@ == m
                    &&& final(self).spec_pos() == old(self).spec_pos() + n
                    &&& final(self).spec_track_remaining() == rem2
                    &&& final(self).spec_running() == rs2
                    &&& old(self).spec_pos() + n <= old(self).spec_bytes().len()
                },
                FileReadOutcome::Failure(p, k) => {
                    &&& r == Err::<FileEvent, _>(
                        ReaderError { position: (old(self).spec_pos() + p) as usize, kind: k },
                    )
                    &&& final(self).spec_pos() == old(self).spec_pos()
                },
            },
    {
        let ghost s = self.bytes@.skip(self.pos as int);
        let pos = self.pos;
        let total = self.bytes.len();
        if pos == total {
            return Err(ReaderError::eof(pos));
        }
        if total - pos < 8 {
            return Err(ReaderError::oob(total));
        }
        proof {
            lemma_suffix_bytes(self.bytes@, pos as int);
        }
        let t0 = self.bytes[pos];
        let t1 = self.bytes[pos + 1];
        let t2 = self.bytes[pos + 2];
        let t3 = self.bytes[pos + 3];
        let len: u32 = read_be32(&self.bytes, pos + 4);
        proof {
            assert(be32(s, 4) == len);
        }
        let is_mtrk = t0 == 0x4D && t1 == 0x54 && t2 == 0x72 && t3 == 0x6B;
        let is_mthd = t0 == 0x4D && t1 == 0x54 && t2 == 0x68 && t3 == 0x64;
        proof {
            assert(s.subrange(0, 4) =~= seq![t0, t1, t2, t3]);
            assert(is_mtrk == (s.subrange(0, 4) == mtrk())) by {
                if is_mtrk {
                    assert(s.subrange(0, 4) =~= mtrk());
                } else {
                    assert(s.subrange(0, 4) != mtrk());
                }
            }
            assert(is_mthd == (s.subrange(0, 4) == mthd())) by {
                if is_mthd {
                    assert(s.subrange(0, 4) =~= mthd());
                } else {
                    assert(s.subrange(0, 4) != mthd());
                }
            }
        }
        if is_mtrk {
            self.pos = pos + 8;
            self.track_remaining = len as u64;
            self.running = None;
            return Ok(FileEvent::Track(TrackChunkHeader { length: len }));
        }
        if is_mthd {
            if len < 6 {
                return Err(ReaderError::parse_error(
                    pos + 4,
                    ParseError::Header(HeaderError::InvalidLength(len)),
                ));
            }
            if (total - pos - 8) < len as usize {
                return Err(ReaderError::oob(total));
            }
            let h = match self.parse_header_fields(pos) {
                Ok(h) => h,
                Err(e) => {
                    return Err(e);
                },
            };
            self.pos = pos + 8 + len as usize;
            self.running = None;
            return Ok(FileEvent::Header(h));
        }
        if (total - pos - 8) < len as usize {
            return Err(ReaderError::oob(total));
        }
        let mut tag: Vec<u8> = Vec::new();
        tag.push(t0);
        tag.push(t1);
        tag.push(t2);
        tag.push(t3);
        let mut data: Vec<u8> = Vec::new();
        data.extend_from_slice(&self.bytes.as_slice()[pos + 8..pos + 8 + len as usize]);
        proof {
            assert(tag@ =~= s.subrange(0, 4));
            assert(data@ =~= s.subrange(8, 8 + len as int));
        }
        self.pos = pos + 8 + len as usize;
        self.running = None;
        Ok(FileEvent::Unknown(UnknownChunk { tag, data }))
    }

    /// Parse the six fixed header bytes of a `"MThd"` chunk starting at
    /// `pos`, exactly as [`spec_header_fields`] says of the bytes from
    /// `pos` on.
    fn parse_header_fields(&self, pos: usize) -> (r: Result<RawHeaderChunk, ReaderError>)
        requires
            pos + 14 <= self.spec_bytes().len(),
        ensures
            match spec_header_fields(self.spec_bytes().skip(pos as int)) {
                HeaderOutcome::Header(h) => r == Ok::<_, ReaderError>(h),
                HeaderOutcome::Failure(p, k) => r == Err::<RawHeaderChunk, _>(
                    ReaderError { position: (pos + p) as usize, kind: k },
                ),
            },
    {
        let ghost s = self.bytes@.skip(pos as int);
        let total = self.bytes.len();
        proof {
            lemma_suffix_bytes(self.bytes@, pos as int);
        }
        let f: u16 = (self.bytes[pos + 8] as u16) * 0x100 + (self.bytes[pos + 9] as u16);
        let nt: u16 = (self.bytes[pos + 10] as u16) * 0x100 + (self.bytes[pos + 11] as u16);
        if f > 2 {
            return Err(ReaderError::parse_error(
                pos + 8,
                ParseError::Header(HeaderError::InvalidFormat(f)),
            ));
        }
        let format = if f == 0 {
            RawFormat::SingleMultiChannel
        } else if f == 1 {
            RawFormat::Simultaneous(nt)
        } else {
            RawFormat::SequentiallyIndependent(nt)
        };
        let timing = match Timing::read([self.bytes[pos + 12], self.bytes[pos + 13]]) {
            Ok(t) => t,
            Err(e) => {
                return Err(ReaderError::parse_error(pos + 12, e));
            },
        };
        Ok(RawHeaderChunk { format, timing })
    }

    /// Read one whole chunk, exactly as [`spec_chunk`] says of the
    /// remaining bytes.
    ///
    /// The end of the stream is a value, [`ChunkEvent::Eof`], not an
    /// error.  This reader form never enters a track body: the body
    /// bytes come back whole inside [`ChunkEvent::Track`].
    pub fn read_chunk(&mut self) -> (r: ReadResult<ChunkEvent>)
        requires
            old(self).wf(),
        ensures
            final(self).wf(),
            final(self).spec_bytes() == old(self).spec_bytes(),
            final(self).spec_track_remaining() == old(self).spec_track_remaining(),
            final(self).spec_running() == old(self).spec_running(),
            match spec_chunk(old(self).spec_bytes().skip(old(self).spec_pos() as int)) {
                ChunkOutcome::Chunk(c, n) => {
                    &&& r matches Ok(ev) && ev@ == c
                    &&& final(self).spec_pos() == old(self).spec_pos() + n
                    &&& old(self).spec_pos() + n <= old(self).spec_bytes().len()
                },
                ChunkOutcome::Failure(p, k) => {
                    &&& r == Err::<ChunkEvent, _>(
                        ReaderError { position: (old(self).spec_pos() + p) as usize, kind: k },
                    )
                    &&& final(self).spec_pos() == old(self).spec_pos()
                },
            },
    {
        let ghost s = self.bytes@.skip(self.pos as int);
        let pos = self.pos;
        let total = self.bytes.len();
        if pos == total {
            return Ok(ChunkEvent::Eof);
        }
        if total - pos < 8 {
            return Err(ReaderError::oob(total));
        }
        proof {
            lemma_suffix_bytes(self.bytes@, pos as int);
        }
        let t0 = self.bytes[pos];
        let t1 = self.bytes[pos + 1];
        let t2 = self.bytes[pos + 2];
        let t3 = self.bytes[pos + 3];
        let len: u32 = read_be32(&self.bytes, pos + 4);
        proof {
            assert(be32(s, 4) == len);
        }
        let is_mtrk = t0 == 0x4D && t1 == 0x54 && t2 == 0x72 && t3 == 0x6B;
        let is_mthd = t0 == 0x4D && t1 == 0x54 && t2 == 0x68 && t3 == 0x64;
        proof {
            assert(s.subrange(0, 4) =~= seq![t0, t1, t2, t3]);
            assert(is_mtrk == (s.subrange(0, 4) == mtrk())) by {
                if is_mtrk {
                    assert(s.subrange(0, 4) =~= mtrk());
                } else {
                    assert(s.subrange(0, 4) != mtrk());
                }
            }
            assert(is_mthd == (s.subrange(0, 4) == mthd())) by {
                if is_mthd {
                    assert(s.subrange(0, 4) =~= mthd());
                } else {
                    assert(s.subrange(0, 4) != mthd());
                }
            }
        }
        if is_mthd {
            if len < 6 {
                return Err(ReaderError::parse_error(
                    pos + 4,
                    ParseError::Header(HeaderError::InvalidLength(len)),
                ));
            }
            if (total - pos - 8) < len as usize {
                return Err(ReaderError::oob(total));
            }
            let h = match self.parse_header_fields(pos) {
                Ok(h) => h,
                Err(e) => {
                    return Err(e);
                },
            };
            self.pos = pos + 8 + len as usize;
            return Ok(ChunkEvent::Header(h));
        }
        if (total - pos - 8) < len as usize {
            return Err(ReaderError::oob(total));
        }
        if is_mtrk {
            let mut body: Vec<u8> = Vec::new();
            body.extend_from_slice(&self.bytes.as_slice()[pos + 8..pos + 8 + len as usize]);
            proof {
                assert(body@ =~= s.subrange(8, 8 + len as int));
            }
            self.pos = pos + 8 + len as usize;
            return Ok(ChunkEvent::Track(RawTrackChunk(body)));
        }
        let mut tag: Vec<u8> = Vec::new();
        tag.push(t0);
        tag.push(t1);
        tag.push(t2);
        tag.push(t3);
        let mut data: Vec<u8> = Vec::new();
        data.extend_from_slice(&self.bytes.as_slice()[pos + 8..pos + 8 + len as usize]);
        proof {
            assert(tag@ =~= s.subrange(0, 4));
            assert(data@ =~= s.subrange(8, 8 + len as int));
        }
        self.pos = pos + 8 + len as usize;
        Ok(ChunkEvent::Unknown(UnknownChunk { tag, data }))
    }
}

/// Each byte of a suffix is the corresponding byte of the buffer.
proof fn lemma_suffix_bytes(b: Seq<u8>, pos: int)
    requires
        0 <= pos <= b.len(),
    ensures
        forall|i: int| 0 <= i < b.len() - pos ==> #[trigger] b.skip(pos)[i] == b[pos + i],
{
}

/// Read four big-endian bytes at `at`.
fn read_be32(bytes: &Vec<u8>, at: usize) -> (r: u32)
    requires
        at + 4 <= bytes@.len(),
    ensures
        r == (bytes@[at as int] * 0x100_0000 + bytes@[at as int + 1] * 0x1_0000
            + bytes@[at as int + 2] * 0x100 + bytes@[at as int + 3]) as u32,
{
    let total = bytes.len();
    let b0 = bytes[at] as u32;
    let b1 = bytes[at + 1] as u32;
    let b2 = bytes[at + 2] as u32;
    let b3 = bytes[at + 3] as u32;
    b0 * 0x100_0000 + b1 * 0x1_0000 + b2 * 0x100 + b3
}

} // verus!
