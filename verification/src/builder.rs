//! Assembling a stream of chunk events into a finished MIDI file.
//!
//! The builder is a state machine: nothing seen, a format known (header
//! first), tracks known (tracks first), or formatted (both have met).
//! Chunks may arrive in any order; a second header is an error, and a
//! single-track format refuses a second track.

use vstd::prelude::*;

use crate::error::{ChunkError, FileError, ReaderError, ReaderErrorKind};
use crate::events::TrackEvent;
use crate::timing::Timing;
use crate::track::{Track, TrackModel, TrackOutcome, decode_track_events, spec_assemble, spec_track_events};

verus! {

/// The format type of a MIDI file: how its tracks relate.
#[derive(Clone, Copy, Debug, PartialEq, Eq, Structural)]
pub enum FormatType {
    /// Format 0: one track carrying every channel.
    SingleMultiChannel,
    /// Format 1: several tracks played together.
    Simultaneous,
    /// Format 2: several tracks played independently.
    SequentiallyIndependent,
}

/// The format as a header chunk declares it: the type tag, with the
/// declared track count for formats 1 and 2.
#[derive(Clone, Copy, Debug, PartialEq, Eq, Structural)]
pub enum RawFormat {
    /// Format 0; always exactly one track.
    SingleMultiChannel,
    /// Format 1 with its declared track count.
    Simultaneous(u16),
    /// Format 2 with its declared track count.
    SequentiallyIndependent(u16),
}

impl RawFormat {
    /// Create a [`RawFormat::SingleMultiChannel`].
    pub fn single_multichannel() -> (r: Self)
        ensures
            r == RawFormat::SingleMultiChannel,
    {
        RawFormat::SingleMultiChannel
    }

    /// Create a [`RawFormat::Simultaneous`] from the two big-endian track
    /// count bytes of a header.
    pub fn simultaneous_from_byte_slice(bytes: [u8; 2]) -> (r: Self)
        ensures
            r == RawFormat::Simultaneous(((bytes@[0] * 0x100) + bytes@[1]) as u16),
    {
        RawFormat::Simultaneous((bytes[0] as u16) * 0x100 + (bytes[1] as u16))
    }

    /// Create a [`RawFormat::SequentiallyIndependent`] from the two
    /// big-endian track count bytes of a header.
    pub fn sequentially_independent_from_byte_slice(bytes: [u8; 2]) -> (r: Self)
        ensures
            r == RawFormat::SequentiallyIndependent(((bytes@[0] * 0x100) + bytes@[1]) as u16),
    {
        RawFormat::SequentiallyIndependent((bytes[0] as u16) * 0x100 + (bytes[1] as u16))
    }

    /// The declared track count, for contracts.
    pub open spec fn spec_num_tracks(&self) -> u16 {
        match *self {
            RawFormat::SingleMultiChannel => 1,
            RawFormat::Simultaneous(n) => n,
            RawFormat::SequentiallyIndependent(n) => n,
        }
    }

    /// The format type, for contracts.
    pub open spec fn spec_format_type(&self) -> FormatType {
        match *self {
            RawFormat::SingleMultiChannel => FormatType::SingleMultiChannel,
            RawFormat::Simultaneous(_) => FormatType::Simultaneous,
            RawFormat::SequentiallyIndependent(_) => FormatType::SequentiallyIndependent,
        }
    }

    /// Returns the number of tracks declared by the format.
    ///
    /// [`RawFormat::SingleMultiChannel`] always returns 1.
    pub fn num_tracks(&self) -> (r: u16)
        ensures
            r == self.spec_num_tracks(),
    {
        match *self {
            RawFormat::SingleMultiChannel => 1,
            RawFormat::Simultaneous(n) => n,
            RawFormat::SequentiallyIndependent(n) => n,
        }
    }

    /// Returns the format type of the format.
    pub fn format_type(&self) -> (r: FormatType)
        ensures
            r == self.spec_format_type(),
    {
        match *self {
            RawFormat::SingleMultiChannel => FormatType::SingleMultiChannel,
            RawFormat::Simultaneous(_) => FormatType::Simultaneous,
            RawFormat::SequentiallyIndependent(_) => FormatType::SequentiallyIndependent,
        }
    }
}

/// The finished topology of a file: its tracks, arranged as the format
/// type demands.
#[derive(Clone, Debug, PartialEq, Eq)]
pub enum Format {
    /// Format 0: the single track.
    SingleMultiChannel(Track),
    /// Format 1: tracks played together.
    Simultaneous(Vec<Track>),
    /// Format 2: tracks played independently.
    SequentiallyIndependent(Vec<Track>),
}

/// The spec-level model of a [`Format`].
pub enum FormatModel {
    /// Model of [`Format::SingleMultiChannel`].
    SingleMultiChannel(TrackModel),
    /// Model of [`Format::Simultaneous`].
    Simultaneous(Seq<TrackModel>),
    /// Model of [`Format::SequentiallyIndependent`].
    SequentiallyIndependent(Seq<TrackModel>),
}

impl View for Format {
    type V = FormatModel;

    open spec fn view(&self) -> FormatModel {
        match *self {
            Format::SingleMultiChannel(t) => FormatModel::SingleMultiChannel(t@),
            Format::Simultaneous(ts) => FormatModel::Simultaneous(
                ts@.map_values(|t: Track| t@),
            ),
            Format::SequentiallyIndependent(ts) => FormatModel::SequentiallyIndependent(
                ts@.map_values(|t: Track| t@),
            ),
        }
    }
}

/// A header chunk's payload: the declared format and the file's timing.
#[derive(Clone, Copy, Debug, PartialEq, Eq, Structural)]
pub struct RawHeaderChunk {
    /// The declared format.
    pub format: RawFormat,
    /// The file's timing.
    pub timing: Timing,
}

impl RawHeaderChunk {
    /// The declared format.
    pub fn format(&self) -> (r: &RawFormat)
        ensures
            r == self.format,
    {
        &self.format
    }

    /// The format type of the declared format.
    pub fn format_type(&self) -> (r: FormatType)
        ensures
            r == self.format.spec_format_type(),
    {
        self.format.format_type()
    }

    /// The file's timing.
    pub fn timing(&self) -> (r: Timing)
        ensures
            r == self.timing,
    {
        self.timing
    }
}

/// A track chunk header: only the length, in bytes, of the chunk's body.
/// The body bytes are parsed into [`TrackEvent`]s.
#[derive(Clone, Copy, Debug, PartialEq, Eq, Structural)]
pub struct TrackChunkHeader {
    /// The declared body length.
    pub length: u32,
}

impl TrackChunkHeader {
    /// The number of bytes following the header in the track's body.
    pub fn len(&self) -> (r: u32)
        ensures
            r == self.length,
    {
        self.length
    }
}

/// A track chunk with its raw body bytes, decoded on demand.
#[derive(Clone, Debug, PartialEq, Eq)]
pub struct RawTrackChunk(pub Vec<u8>);

impl View for RawTrackChunk {
    type V = Seq<u8>;

    open spec fn view(&self) -> Seq<u8> {
        self.0@
    }
}

impl RawTrackChunk {
    /// Decode the body into its events, under a fresh running status.
    pub fn events(&self) -> (r: Result<Vec<TrackEvent>, ReaderError>)
        ensures
            match spec_track_events(self@, None) {
                TrackOutcome::Events(es) => {
                    &&& r matches Ok(v)
                    &&& v@.map_values(|e: TrackEvent| e@) == es
                },
                TrackOutcome::Failure(p, k) => r == Err::<Vec<TrackEvent>, _>(
                    ReaderError { position: p as usize, kind: k },
                ),
            },
    {
        decode_track_events(self.0.as_slice())
    }
}

/// A chunk whose four-byte type names neither a header nor a track: its
/// tag and body, retained verbatim.
#[derive(Clone, Debug, PartialEq, Eq)]
pub struct UnknownChunk {
    /// The four type bytes.
    pub tag: Vec<u8>,
    /// The body bytes, exactly as declared.
    pub data: Vec<u8>,
}

/// The spec-level model of an [`UnknownChunk`].
pub struct UnknownChunkModel {
    /// The four type bytes.
    pub tag: Seq<u8>,
    /// The body bytes.
    pub data: Seq<u8>,
}

impl View for UnknownChunk {
    type V = UnknownChunkModel;

    open spec fn view(&self) -> UnknownChunkModel {
        UnknownChunkModel { tag: self.tag@, data: self.data@ }
    }
}

/// One parse event of the chunk stream: a whole chunk, or its clean end.
#[derive(Clone, Debug, PartialEq, Eq)]
pub enum ChunkEvent {
    /// A header chunk.
    Header(RawHeaderChunk),
    /// A track chunk with its body.
    Track(RawTrackChunk),
    /// Any other chunk.
    Unknown(UnknownChunk),
    /// The byte stream ended where a chunk could start.
    Eof,
}

/// The spec-level model of a [`ChunkEvent`].
pub enum ChunkEventModel {
    /// Model of [`ChunkEvent::Header`].
    Header(RawHeaderChunk),
    /// Model of [`ChunkEvent::Track`]: the body bytes.
    Track(Seq<u8>),
    /// Model of [`ChunkEvent::Unknown`].
    Unknown(UnknownChunkModel),
    /// Model of [`ChunkEvent::Eof`].
    Eof,
}

impl View for ChunkEvent {
    type V = ChunkEventModel;

    open spec fn view(&self) -> ChunkEventModel {
        match *self {
            ChunkEvent::Header(h) => ChunkEventModel::Header(h),
            ChunkEvent::Track(t) => ChunkEventModel::Track(t@),
            ChunkEvent::Unknown(u) => ChunkEventModel::Unknown(u@),
            ChunkEvent::Eof => ChunkEventModel::Eof,
        }
    }
}

impl ChunkEvent {
    /// True for the end of the chunk stream.
    pub fn is_eof(&self) -> (r: bool)
        ensures
            r == (self@ is Eof),
    {
        matches!(self, ChunkEvent::Eof)
    }
}

/// Where the builder stands: what it has seen so far.
#[derive(Clone, Debug, PartialEq, Eq)]
pub enum FormatStage {
    /// Nothing seen yet.
    Unknown,
    /// A header arrived first: the format is known, no tracks yet.
    KnownFormat(RawFormat),
    /// Tracks arrived first: collected, with no format yet.
    KnownTracks(Vec<Track>),
    /// Header and tracks have met: the terminal state.
    Formatted(Format),
}

/// The spec-level model of a [`FormatStage`].
pub enum FormatStageModel {
    /// Model of [`FormatStage::Unknown`].
    Unknown,
    /// Model of [`FormatStage::KnownFormat`].
    KnownFormat(RawFormat),
    /// Model of [`FormatStage::KnownTracks`].
    KnownTracks(Seq<TrackModel>),
    /// Model of [`FormatStage::Formatted`].
    Formatted(FormatModel),
}

impl View for FormatStage {
    type V = FormatStageModel;

    open spec fn view(&self) -> FormatStageModel {
        match *self {
            FormatStage::Unknown => FormatStageModel::Unknown,
            FormatStage::KnownFormat(f) => FormatStageModel::KnownFormat(f),
            FormatStage::KnownTracks(ts) => FormatStageModel::KnownTracks(
                ts@.map_values(|t: Track| t@),
            ),
            FormatStage::Formatted(f) => FormatStageModel::Formatted(f@),
        }
    }
}

/// A builder used to create a new [`MidiFile`](crate::file::MidiFile):
/// it consumes chunk events in any order and assembles the file.
#[derive(Clone, Debug, PartialEq, Eq)]
pub struct MidiFileBuilder {
    /// Where the build stands.
    pub format: FormatStage,
    /// The timing, once a header has arrived.
    pub timing: Option<Timing>,
    /// Chunks of unrecognized type, retained in arrival order.
    pub unknown_chunks: Vec<UnknownChunk>,
}

/// The spec-level model of a [`MidiFileBuilder`].
pub struct BuilderModel {
    /// The model of the stage.
    pub format: FormatStageModel,
    /// The timing, once known.
    pub timing: Option<Timing>,
    /// The models of the retained unknown chunks.
    pub unknown_chunks: Seq<UnknownChunkModel>,
}

impl View for MidiFileBuilder {
    type V = BuilderModel;

    open spec fn view(&self) -> BuilderModel {
        BuilderModel {
            format: self.format@,
            timing: self.timing,
            unknown_chunks: self.unknown_chunks@.map_values(|u: UnknownChunk| u@),
        }
    }
}

impl Default for MidiFileBuilder {
    /// A builder that has seen nothing.
    fn default() -> (r: Self)
        ensures
            r@ == BuilderModel::spec_default(),
    {
        let r = MidiFileBuilder {
            format: FormatStage::Unknown,
            timing: None,
            unknown_chunks: Vec::new(),
        };
        proof {
            assert(r.unknown_chunks@.map_values(|u: UnknownChunk| u@)
                =~= Seq::<UnknownChunkModel>::empty());
        }
        r
    }
}

impl BuilderModel {
    /// The model of a builder that has seen nothing.
    pub open spec fn spec_default() -> BuilderModel {
        BuilderModel {
            format: FormatStageModel::Unknown,
            timing: None,
            unknown_chunks: Seq::empty(),
        }
    }
}

/// What a header chunk does to the builder's stage, once the duplicate
/// checks have passed: from nothing the format is recorded; collected
/// tracks resolve into the matching topology at once.
pub open spec fn header_step(
    b: BuilderModel,
    h: RawHeaderChunk,
) -> Result<BuilderModel, ReaderErrorKind> {
    if b.timing is Some {
        Err(ReaderErrorKind::ParseError(crate::error::ParseError::Chunk(
            ChunkError::DuplicateHeader,
        )))
    } else {
        match b.format {
            FormatStageModel::Unknown => Ok(
                BuilderModel {
                    format: FormatStageModel::KnownFormat(h.format),
                    timing: Some(h.timing),
                    ..b
                },
            ),
            FormatStageModel::KnownFormat(_) => Err(ReaderErrorKind::ParseError(
                crate::error::ParseError::Chunk(ChunkError::DuplicateFormat),
            )),
            FormatStageModel::Formatted(_) => Err(ReaderErrorKind::ParseError(
                crate::error::ParseError::Chunk(ChunkError::DuplicateFormat),
            )),
            FormatStageModel::KnownTracks(tracks) => {
                match h.format.spec_format_type() {
                    FormatType::Simultaneous => Ok(
                        BuilderModel {
                            format: FormatStageModel::Formatted(FormatModel::Simultaneous(tracks)),
                            timing: Some(h.timing),
                            ..b
                        },
                    ),
                    FormatType::SingleMultiChannel => {
                        if tracks.len() != 1 {
                            Err(ReaderErrorKind::ParseError(crate::error::ParseError::Chunk(
                                ChunkError::MultipleTracksForSingleMultiChannel,
                            )))
                        } else {
                            Ok(
                                BuilderModel {
                                    format: FormatStageModel::Formatted(
                                        FormatModel::SingleMultiChannel(tracks[0]),
                                    ),
                                    timing: Some(h.timing),
                                    ..b
                                },
                            )
                        }
                    },
                    FormatType::SequentiallyIndependent => Ok(
                        BuilderModel {
                            format: FormatStageModel::Formatted(
                                FormatModel::SequentiallyIndependent(tracks),
                            ),
                            timing: Some(h.timing),
                            ..b
                        },
                    ),
                }
            },
        }
    }
}

/// What an assembled track does to the builder's stage: collected when
/// no format is known yet, resolved into the matching topology when one
/// is, appended once formatted — unless the format is single-track.
pub open spec fn track_step(b: BuilderModel, track: TrackModel) -> Result<
    BuilderModel,
    ReaderErrorKind,
> {
    match b.format {
        FormatStageModel::Unknown => Ok(
            BuilderModel { format: FormatStageModel::KnownTracks(seq![track]), ..b },
        ),
        FormatStageModel::KnownFormat(f) => {
            match f.spec_format_type() {
                FormatType::Simultaneous => Ok(
                    BuilderModel {
                        format: FormatStageModel::Formatted(
                            FormatModel::Simultaneous(seq![track]),
                        ),
                        ..b
                    },
                ),
                FormatType::SingleMultiChannel => Ok(
                    BuilderModel {
                        format: FormatStageModel::Formatted(
                            FormatModel::SingleMultiChannel(track),
                        ),
                        ..b
                    },
                ),
                FormatType::SequentiallyIndependent => Ok(
                    BuilderModel {
                        format: FormatStageModel::Formatted(
                            FormatModel::SequentiallyIndependent(seq![track]),
                        ),
                        ..b
                    },
                ),
            }
        },
        FormatStageModel::KnownTracks(ts) => Ok(
            BuilderModel { format: FormatStageModel::KnownTracks(ts.push(track)), ..b },
        ),
        FormatStageModel::Formatted(fmt) => {
            match fmt {
                FormatModel::SequentiallyIndependent(ts) => Ok(
                    BuilderModel {
                        format: FormatStageModel::Formatted(
                            FormatModel::SequentiallyIndependent(ts.push(track)),
                        ),
                        ..b
                    },
                ),
                FormatModel::Simultaneous(ts) => Ok(
                    BuilderModel {
                        format: FormatStageModel::Formatted(
                            FormatModel::Simultaneous(ts.push(track)),
                        ),
                        ..b
                    },
                ),
                FormatModel::SingleMultiChannel(_) => Err(ReaderErrorKind::ParseError(
                    crate::error::ParseError::Chunk(
                        ChunkError::MultipleTracksForSingleMultiChannel,
                    ),
                )),
            }
        },
    }
}

/// What one chunk event does to the builder.
///
/// A track chunk's body is decoded and assembled first; a failure there
/// is the step's failure, and the builder is unchanged.  An unknown
/// chunk is retained; end-of-stream is handed back as an error for the
/// caller to interpret.
pub open spec fn builder_step(b: BuilderModel, c: ChunkEventModel) -> Result<
    BuilderModel,
    ReaderErrorKind,
> {
    match c {
        ChunkEventModel::Header(h) => header_step(b, h),
        ChunkEventModel::Track(body) => {
            match spec_track_events(body, None) {
                TrackOutcome::Failure(_, k) => Err(k),
                TrackOutcome::Events(es) => track_step(b, spec_assemble(es)),
            }
        },
        ChunkEventModel::Unknown(u) => Ok(
            BuilderModel { unknown_chunks: b.unknown_chunks.push(u), ..b },
        ),
        ChunkEventModel::Eof => Err(ReaderErrorKind::Eof),
    }
}

/// What finishing the builder yields: the file when the stage is
/// terminal and a timing was recorded, the missing piece's error
/// otherwise.
pub open spec fn builder_build(b: BuilderModel) -> Result<MidiFileModel, FileError> {
    match b.format {
        FormatStageModel::Formatted(fmt) => {
            match b.timing {
                Some(t) => Ok(MidiFileModel { timing: t, format: fmt }),
                None => Err(FileError::NoTiming),
            }
        },
        _ => Err(FileError::NoFormat),
    }
}

impl MidiFileBuilder {
    /// Handles a chunk of a midi file.
    pub fn handle_chunk(&mut self, chunk: ChunkEvent) -> (r: Result<(), ReaderErrorKind>)
        ensures
            match builder_step(old(self)@, chunk@) {
                Ok(b2) => r matches Ok(()) && final(self)@ == b2,
                Err(k) => r == Err::<(), _>(k) && final(self)@ == old(self)@,
            },
    {
        match chunk {
            ChunkEvent::Header(h) => {
                if self.timing.is_some() {
                    return Err(ReaderErrorKind::chunk(ChunkError::DuplicateHeader));
                }
                let mut stage = FormatStage::Unknown;
                core::mem::swap(&mut stage, &mut self.format);
                match stage {
                    FormatStage::Unknown => {
                        self.format = FormatStage::KnownFormat(h.format);
                    },
                    FormatStage::KnownFormat(f) => {
                        self.format = FormatStage::KnownFormat(f);
                        return Err(ReaderErrorKind::chunk(ChunkError::DuplicateFormat));
                    },
                    FormatStage::Formatted(f) => {
                        self.format = FormatStage::Formatted(f);
                        return Err(ReaderErrorKind::chunk(ChunkError::DuplicateFormat));
                    },
                    FormatStage::KnownTracks(mut tracks) => {
                        let ghost tm = tracks@.map_values(|t: Track| t@);
                        match h.format.format_type() {
                            FormatType::Simultaneous => {
                                self.format = FormatStage::Formatted(
                                    Format::Simultaneous(tracks),
                                );
                            },
                            FormatType::SingleMultiChannel => {
                                if tracks.len() != 1 {
                                    self.format = FormatStage::KnownTracks(tracks);
                                    return Err(ReaderErrorKind::chunk(
                                        ChunkError::MultipleTracksForSingleMultiChannel,
                                    ));
                                }
                                let track = tracks.pop().unwrap();
                                proof {
                                    assert(track@ == tm[0]);
                                }
                                self.format = FormatStage::Formatted(
                                    Format::SingleMultiChannel(track),
                                );
                            },
                            FormatType::SequentiallyIndependent => {
                                self.format = FormatStage::Formatted(
                                    Format::SequentiallyIndependent(tracks),
                                );
                            },
                        }
                    },
                }
                self.timing = Some(h.timing);
                Ok(())
            },
            ChunkEvent::Track(t) => {
                let events = match t.events() {
                    Ok(events) => events,
                    Err(e) => {
                        return Err(e.kind);
                    },
                };
                let ghost evs = events@.map_values(|e: TrackEvent| e@);
                let track = Track::new(events);
                let mut stage = FormatStage::Unknown;
                core::mem::swap(&mut stage, &mut self.format);
                match stage {
                    FormatStage::Unknown => {
                        let mut track_vec: Vec<Track> = Vec::new();
                        track_vec.push(track);
                        proof {
                            assert(track_vec@.map_values(|t: Track| t@) =~= seq![
                                spec_assemble(evs),
                            ]);
                        }
                        self.format = FormatStage::KnownTracks(track_vec);
                    },
                    FormatStage::KnownFormat(f) => {
                        match f.format_type() {
                            FormatType::Simultaneous => {
                                let mut track_vec: Vec<Track> = Vec::new();
                                track_vec.push(track);
                                proof {
                                    assert(track_vec@.map_values(|t: Track| t@) =~= seq![
                                        spec_assemble(evs),
                                    ]);
                                }
                                self.format = FormatStage::Formatted(
                                    Format::Simultaneous(track_vec),
                                );
                            },
                            FormatType::SingleMultiChannel => {
                                self.format = FormatStage::Formatted(
                                    Format::SingleMultiChannel(track),
                                );
                            },
                            FormatType::SequentiallyIndependent => {
                                let mut track_vec: Vec<Track> = Vec::new();
                                track_vec.push(track);
                                proof {
                                    assert(track_vec@.map_values(|t: Track| t@) =~= seq![
                                        spec_assemble(evs),
                                    ]);
                                }
                                self.format = FormatStage::Formatted(
                                    Format::SequentiallyIndependent(track_vec),
                                );
                            },
                        }
                    },
                    FormatStage::KnownTracks(mut tracks) => {
                        let ghost before = tracks@.map_values(|t: Track| t@);
                        tracks.push(track);
                        proof {
                            assert(tracks@.map_values(|t: Track| t@) =~= before.push(
                                spec_assemble(evs),
                            ));
                        }
                        self.format = FormatStage::KnownTracks(tracks);
                    },
                    FormatStage::Formatted(format) => {
                        match format {
                            Format::SequentiallyIndependent(mut tracks) => {
                                let ghost before = tracks@.map_values(|t: Track| t@);
                                tracks.push(track);
                                proof {
                                    assert(tracks@.map_values(|t: Track| t@) =~= before.push(
                                        spec_assemble(evs),
                                    ));
                                }
                                self.format = FormatStage::Formatted(
                                    Format::SequentiallyIndependent(tracks),
                                );
                            },
                            Format::Simultaneous(mut tracks) => {
                                let ghost before = tracks@.map_values(|t: Track| t@);
                                tracks.push(track);
                                proof {
                                    assert(tracks@.map_values(|t: Track| t@) =~= before.push(
                                        spec_assemble(evs),
                                    ));
                                }
                                self.format = FormatStage::Formatted(
                                    Format::Simultaneous(tracks),
                                );
                            },
                            Format::SingleMultiChannel(t0) => {
                                self.format = FormatStage::Formatted(
                                    Format::SingleMultiChannel(t0),
                                );
                                return Err(ReaderErrorKind::chunk(
                                    ChunkError::MultipleTracksForSingleMultiChannel,
                                ));
                            },
                        }
                    },
                }
                Ok(())
            },
            ChunkEvent::Unknown(data) => {
                let ghost before = self.unknown_chunks@.map_values(|u: UnknownChunk| u@);
                let ghost model = data@;
                self.unknown_chunks.push(data);
                proof {
                    assert(self.unknown_chunks@.map_values(|u: UnknownChunk| u@) =~= before.push(
                        model,
                    ));
                }
                Ok(())
            },
            ChunkEvent::Eof => Err(ReaderErrorKind::Eof),
        }
    }

    /// Attempts to finish the midi file from the provided chunks.
    pub fn build(self) -> (r: Result<MidiFile, FileError>)
        ensures
            match builder_build(self@) {
                Ok(m) => r matches Ok(f) && f@ == m,
                Err(e) => r == Err::<MidiFile, _>(e),
            },
    {
        let format = match self.format {
            FormatStage::Formatted(format) => format,
            _ => {
                return Err(FileError::NoFormat);
            },
        };
        let timing = match self.timing {
            Some(t) => t,
            None => {
                return Err(FileError::NoTiming);
            },
        };
        Ok(MidiFile { format, timing })
    }
}

/// A parsed MIDI file: its timing, and its tracks in one of the three
/// topologies.
#[derive(Clone, Debug, PartialEq, Eq)]
pub struct MidiFile {
    /// The file's timing.
    pub timing: Timing,
    /// The file's topology.
    pub format: Format,
}

/// The spec-level model of a [`MidiFile`].
pub struct MidiFileModel {
    /// The file's timing.
    pub timing: Timing,
    /// The model of the file's topology.
    pub format: FormatModel,
}

impl View for MidiFile {
    type V = MidiFileModel;

    open spec fn view(&self) -> MidiFileModel {
        MidiFileModel { timing: self.timing, format: self.format@ }
    }
}

} // verus!
