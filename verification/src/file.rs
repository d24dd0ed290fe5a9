//! The parsed MIDI file: assembly from bytes, and projection of every
//! track into absolute-microsecond events.
//!
//! The timing resolver turns the file's timing and a track's tempo into
//! a microseconds-per-tick rate, kept as an exact rational — the
//! drop-frame SMPTE offset arithmetic uses 30000/1001, never the nominal
//! 30.  Each event's timestamp is the rate times its accumulated ticks
//! plus the track's offset, rounded down once at the end.

use vstd::prelude::*;

use crate::builder::{ChunkEventModel, Format, FormatModel, FormatType, MidiFile, MidiFileBuilder, MidiFileModel, builder_build, builder_step};
use crate::chunks::{ChunkOutcome, Reader, spec_chunk};
use crate::error::{ParseError, ReadResult, ReaderError, ReaderErrorKind};
use crate::events::{LiveEvent, LiveEventModel, SystemCommonMessage, SystemExclusiveMessage};
use crate::smpte_offset::{SmpteOffset, offset_micros_numer};
use crate::tempo::Tempo;
use crate::time::{Ticked, TickedModel, Timed, TimedModel};
use crate::timing::{SmpteFps, Timing};
use crate::track::{Track, TrackInfoModel, TrackModel};

verus! {

/// Information about the timing of the MIDI file.
#[derive(Clone, Copy, Debug, PartialEq, Eq, Structural)]
pub struct MidiFileHeader {
    /// The file's timing.
    pub timing: Timing,
}

impl MidiFileHeader {
    /// Create a new header from timing.
    pub fn new(timing: Timing) -> (r: Self)
        ensures
            r == (MidiFileHeader { timing }),
    {
        MidiFileHeader { timing }
    }

    /// Get the timing props.
    pub fn timing(&self) -> (r: &Timing)
        ensures
            r == self.timing,
    {
        &self.timing
    }
}

/// The outcome of parsing a whole byte buffer into a file.
pub enum ParseOutcome {
    /// The finished file.
    File(MidiFileModel),
    /// A failure at the given absolute position.
    Failure(int, ReaderErrorKind),
}

/// Parsing from `pos` on, with the chunks before `pos` already folded
/// into the builder `b`: chunks are read and handed to the builder until
/// the stream ends cleanly, and the builder finishes the file.
///
/// A failure inside a chunk carries its own position; a build step's
/// failure is reported just past the chunk that caused it, and a failed
/// finish at the buffer's end.
pub open spec fn spec_parse_from(bytes: Seq<u8>, pos: int, b: crate::builder::BuilderModel) -> ParseOutcome
    decreases bytes.len() - pos,
{
    match spec_chunk(bytes.skip(pos)) {
        ChunkOutcome::Failure(p, k) => ParseOutcome::Failure(pos + p, k),
        ChunkOutcome::Chunk(c, n) => {
            if c is Eof {
                match builder_build(b) {
                    Ok(m) => ParseOutcome::File(m),
                    Err(e) => ParseOutcome::Failure(
                        pos,
                        ReaderErrorKind::ParseError(ParseError::File(e)),
                    ),
                }
            } else if 1 <= n && pos + n <= bytes.len() {
                match builder_step(b, c) {
                    Err(k) => ParseOutcome::Failure(pos + n, k),
                    Ok(b2) => spec_parse_from(bytes, pos + n, b2),
                }
            } else {
                // a chunk never spans more bytes than remain
                ParseOutcome::Failure(pos, ReaderErrorKind::OutOfBounds)
            }
        },
    }
}

/// What parsing a byte buffer yields.
pub open spec fn spec_parse(bytes: Seq<u8>) -> ParseOutcome {
    spec_parse_from(bytes, 0, crate::builder::BuilderModel::spec_default())
}

/// One parsing step: with one chunk read and folded in, the whole
/// buffer's outcome is the outcome of going on from behind it.
proof fn lemma_parse_step(
    bytes: Seq<u8>,
    pos: int,
    b: crate::builder::BuilderModel,
    c: ChunkEventModel,
    n: int,
    b2: crate::builder::BuilderModel,
)
    requires
        0 <= pos,
        spec_chunk(bytes.skip(pos)) == ChunkOutcome::Chunk(c, n),
        !(c is Eof),
        1 <= n,
        pos + n <= bytes.len(),
        builder_step(b, c) == Ok::<_, ReaderErrorKind>(b2),
    ensures
        spec_parse_from(bytes, pos, b) == spec_parse_from(bytes, pos + n, b2),
{
}

/// A chunk that is not the end of the stream spans at least its eight
/// tag and length bytes, and never more bytes than remain.
proof fn lemma_chunk_progress(s: Seq<u8>, c: ChunkEventModel, n: int)
    requires
        spec_chunk(s) == ChunkOutcome::Chunk(c, n),
        !(c is Eof),
    ensures
        8 <= n <= s.len(),
{
}

impl MidiFile {
    /// Parse a set of bytes into a file value.
    ///
    /// Chunks are read and folded into a builder until the stream ends
    /// cleanly; adversarial or truncated input comes back as an error,
    /// never a panic.  The outcome is exactly what [`spec_parse`] says
    /// of the bytes.
    pub fn parse(bytes: &[u8]) -> (r: ReadResult<MidiFile>)
        ensures
            match spec_parse(bytes@) {
                ParseOutcome::File(m) => r matches Ok(f) && f@ == m,
                ParseOutcome::Failure(p, k) => r == Err::<MidiFile, _>(
                    ReaderError { position: p as usize, kind: k },
                ),
            },
    {
        let mut reader = Reader::from_byte_slice(bytes);
        let mut builder = MidiFileBuilder::default();
        loop
            invariant
                reader.wf(),
                reader.spec_bytes() == bytes@,
                spec_parse(bytes@) == spec_parse_from(
                    bytes@,
                    reader.spec_pos() as int,
                    builder@,
                ),
            decreases bytes@.len() - reader.spec_pos(),
        {
            let ghost pos_before = reader.spec_pos() as int;
            let pos_now = reader.buffer_position();
            let val = match reader.read_chunk() {
                Ok(val) => val,
                Err(e) => {
                    return Err(e);
                },
            };
            if val.is_eof() {
                return match builder.build() {
                    Ok(f) => Ok(f),
                    Err(k) => Err(ReaderError::parse_error(pos_now, ParseError::File(k))),
                };
            }
            let ghost c = val@;
            let ghost n = reader.spec_pos() - pos_before;
            proof {
                lemma_chunk_progress(bytes@.skip(pos_before), c, n);
            }
            let after = reader.buffer_position();
            let ghost b_before = builder@;
            match builder.handle_chunk(val) {
                Ok(()) => {
                    proof {
                        lemma_parse_step(bytes@, pos_before, b_before, c, n, builder@);
                    }
                },
                Err(k) => {
                    return Err(ReaderError::new(after, k));
                },
            }
        }
    }

    /// Returns the file's timing.
    pub fn timing(&self) -> (r: Timing)
        ensures
            r == self@.timing,
    {
        self.timing
    }

    /// Returns the format type of the file.
    pub fn format_type(&self) -> (r: FormatType)
        ensures
            match self@.format {
                FormatModel::SingleMultiChannel(_) => r == FormatType::SingleMultiChannel,
                FormatModel::Simultaneous(_) => r == FormatType::Simultaneous,
                FormatModel::SequentiallyIndependent(_) => r
                    == FormatType::SequentiallyIndependent,
            },
    {
        match &self.format {
            Format::SequentiallyIndependent(_) => FormatType::SequentiallyIndependent,
            Format::Simultaneous(_) => FormatType::Simultaneous,
            Format::SingleMultiChannel(_) => FormatType::SingleMultiChannel,
        }
    }

    /// Returns the file's tracks, in stored order.
    pub fn tracks(&self) -> (r: Vec<&Track>)
        ensures
            r@.map_values(|t: &Track| t@) == spec_tracks(self@),
    {
        match &self.format {
            Format::SingleMultiChannel(c) => {
                let mut v: Vec<&Track> = Vec::new();
                v.push(c);
                proof {
                    assert(v@.map_values(|t: &Track| t@) =~= spec_tracks(self@));
                }
                v
            },
            Format::Simultaneous(s) => {
                let r = collect_refs(s);
                proof {
                    assert(r@.map_values(|t: &Track| t@) =~= spec_tracks(self@));
                }
                r
            },
            Format::SequentiallyIndependent(t) => {
                let r = collect_refs(t);
                proof {
                    assert(r@.map_values(|t: &Track| t@) =~= spec_tracks(self@));
                }
                r
            },
        }
    }

    /// Executes the provided function for each track of the file, in
    /// stored order.
    pub fn for_each_track<F: Fn(&Track)>(&self, func: F)
        requires
            forall|t: &Track| func.requires((t,)),
    {
        match &self.format {
            Format::SingleMultiChannel(c) => {
                func(c);
            },
            Format::Simultaneous(s) => {
                let mut i: usize = 0;
                while i < s.len()
                    invariant
                        forall|t: &Track| func.requires((t,)),
                        i <= s@.len(),
                    decreases s@.len() - i,
                {
                    func(&s[i]);
                    i += 1;
                }
            },
            Format::SequentiallyIndependent(s) => {
                let mut i: usize = 0;
                while i < s.len()
                    invariant
                        forall|t: &Track| func.requires((t,)),
                        i <= s@.len(),
                    decreases s@.len() - i,
                {
                    func(&s[i]);
                    i += 1;
                }
            },
        }
    }

    /// Project the file into one stream of absolute-microsecond events.
    ///
    /// Tracks are visited in stored order and each track's events are
    /// fully emitted before the next track's begin — the stream is a
    /// concatenation, not a merge sorted by timestamp.  For
    /// single-track and simultaneous files the first track's tempo is
    /// authoritative for every track; sequentially independent tracks
    /// each use their own.  Timestamps saturate at `u64::MAX`, which a
    /// file can only reach by declaring a zero tick rate.
    pub fn into_events(self) -> (r: Vec<Timed<LiveEvent>>)
        ensures
            r@.map_values(|e: Timed<LiveEvent>| e@) == project_file(self@),
    {
        let ghost m = self@;
        let timing = self.timing;
        let mut out: Vec<Timed<LiveEvent>> = Vec::new();
        proof {
            assert(out@.map_values(|e: Timed<LiveEvent>| e@)
                =~= Seq::<TimedModel<LiveEventModel>>::empty());
        }
        match &self.format {
            Format::SingleMultiChannel(track) => {
                let ghost tm = track@;
                let tempo = track.info.tempo;
                project_into(track, tempo, timing, &mut out);
                proof {
                    assert(Seq::<TimedModel<LiveEventModel>>::empty() + project_track(
                        tm,
                        tempo,
                        timing,
                    ) =~= project_track(tm, tempo, timing));
                }
                out
            },
            Format::Simultaneous(tracks) => {
                if tracks.len() == 0 {
                    proof {
                        assert(tracks@.map_values(|t: Track| t@).len() == 0);
                    }
                    return out;
                }
                let ghost ts = tracks@.map_values(|t: Track| t@);
                let tempo = tracks[0].info.tempo;
                proof {
                    assert(ts[0] == tracks@[0]@);
                }
                project_all(tracks, Some(tempo), timing, &mut out);
                proof {
                    assert(Seq::<TimedModel<LiveEventModel>>::empty() + project_tracks(
                        ts,
                        Some(tempo),
                        timing,
                    ) =~= project_tracks(ts, Some(tempo), timing));
                }
                out
            },
            Format::SequentiallyIndependent(tracks) => {
                let ghost ts = tracks@.map_values(|t: Track| t@);
                project_all(tracks, None, timing, &mut out);
                proof {
                    assert(Seq::<TimedModel<LiveEventModel>>::empty() + project_tracks(
                        ts,
                        None,
                        timing,
                    ) =~= project_tracks(ts, None, timing));
                }
                out
            },
        }
    }
}

/// The file's tracks in stored order, for contracts.
pub open spec fn spec_tracks(m: MidiFileModel) -> Seq<TrackModel> {
    match m.format {
        FormatModel::SingleMultiChannel(t) => seq![t],
        FormatModel::Simultaneous(ts) => ts,
        FormatModel::SequentiallyIndependent(ts) => ts,
    }
}

/// Collect references to the tracks of a vector.
fn collect_refs(v: &Vec<Track>) -> (r: Vec<&Track>)
    ensures
        r@.map_values(|t: &Track| t@) == v@.map_values(|t: Track| t@),
{
    let mut r: Vec<&Track> = Vec::new();
    let mut i: usize = 0;
    while i < v.len()
        invariant
            i <= v@.len(),
            r@.len() == i,
            forall|j: int| 0 <= j < i ==> #[trigger] r@[j]@ == v@[j]@,
        decreases v@.len() - i,
    {
        r.push(&v[i]);
        i += 1;
    }
    proof {
        assert(r@.map_values(|t: &Track| t@) =~= v@.map_values(|t: Track| t@));
    }
    r
}

/// The numerator of the microseconds-per-tick rate: the tempo under
/// musical timing, one second under SMPTE timing.
pub open spec fn rate_num(timing: Timing, tempo: Tempo) -> int {
    match timing {
        Timing::TicksPerQuarterNote(_) => tempo.spec_micros() as int,
        Timing::Smpte(_) => 1_000_000,
    }
}

/// The denominator of the microseconds-per-tick rate: the tick rate per
/// quarter note, or the nominal frame rate times ticks per frame.
pub open spec fn rate_den(timing: Timing) -> int {
    match timing {
        Timing::TicksPerQuarterNote(t) => t.spec_ticks() as int,
        Timing::Smpte(h) => h.fps.spec_division() * h.ticks_per_frame.spec_value(),
    }
}

/// The frame rate an offset's microseconds are computed with: the
/// file's own rate overrides the offset's when the file is SMPTE-timed.
pub open spec fn offset_fps(o: SmpteOffset, timing: Timing) -> SmpteFps {
    match timing {
        Timing::Smpte(h) => h.fps,
        Timing::TicksPerQuarterNote(_) => o.fps,
    }
}

/// The numerator of a track's base offset in microseconds; zero without
/// an SMPTE offset.
pub open spec fn offset_num(info: TrackInfoModel, timing: Timing) -> int {
    match info.smpte_offset {
        None => 0,
        Some(o) => offset_micros_numer(o, offset_fps(o, timing)),
    }
}

/// The denominator of a track's base offset; one without an SMPTE
/// offset.
pub open spec fn offset_den(info: TrackInfoModel, timing: Timing) -> int {
    match info.smpte_offset {
        None => 1,
        Some(o) => offset_fps(o, timing).spec_numer(),
    }
}

/// An event's absolute timestamp:
/// `floor(rate · ticks + offset)` with the rate `rn/rd` in microseconds
/// per tick and the offset `on/od` in microseconds, saturating at
/// `u64::MAX` — which only a zero rate denominator can reach in a real
/// file.
pub open spec fn event_micros(rn: int, rd: int, on: int, od: int, ticks: int) -> u64 {
    if rd <= 0 || od <= 0 {
        u64::MAX
    } else {
        let q = (ticks * rn * od + on * rd) / (rd * od);
        if q > u64::MAX {
            u64::MAX
        } else {
            q as u64
        }
    }
}

/// One track's events projected to absolute microseconds under a given
/// tempo: each accumulated tick count becomes a timestamp, in order.
pub open spec fn project_track(t: TrackModel, tempo: Tempo, timing: Timing) -> Seq<
    TimedModel<LiveEventModel>,
> {
    t.events.map_values(
        |ev: TickedModel<LiveEventModel>| TimedModel {
            timestamp: event_micros(
                rate_num(timing, tempo),
                rate_den(timing),
                offset_num(t.info, timing),
                offset_den(t.info, timing),
                ev.accumulated_ticks as int,
            ),
            event: ev.event,
        },
    )
}

/// The concatenation of the tracks' projections, in stored order: each
/// track's events are fully emitted before the next track's begin.  A
/// fixed tempo is the conductor's; `None` lets each track use its own.
pub open spec fn project_tracks(ts: Seq<TrackModel>, tempo: Option<Tempo>, timing: Timing) -> Seq<
    TimedModel<LiveEventModel>,
>
    decreases ts.len(),
{
    if ts.len() == 0 {
        Seq::empty()
    } else {
        let own = match tempo {
            Some(t) => t,
            None => ts[0].info.tempo,
        };
        project_track(ts[0], own, timing) + project_tracks(ts.skip(1), tempo, timing)
    }
}

/// The whole file projected to absolute microseconds.
///
/// For a single-track file the track's own tempo rules; in a
/// simultaneous file the first track's tempo is authoritative for every
/// track; sequentially independent tracks each use their own.
pub open spec fn project_file(m: MidiFileModel) -> Seq<TimedModel<LiveEventModel>> {
    match m.format {
        FormatModel::SingleMultiChannel(t) => project_track(t, t.info.tempo, m.timing),
        FormatModel::Simultaneous(ts) => {
            if ts.len() == 0 {
                Seq::empty()
            } else {
                project_tracks(ts, Some(ts[0].info.tempo), m.timing)
            }
        },
        FormatModel::SequentiallyIndependent(ts) => project_tracks(ts, None, m.timing),
    }
}

/// Concatenation, not merge: the projector of a simultaneous file emits
/// the first track's events wholly before any later track's — the
/// per-track streams follow each other in stored order and are never
/// sorted together by timestamp.
pub proof fn lemma_concatenation_not_merge(timing: Timing, ts: Seq<TrackModel>)
    requires
        ts.len() > 0,
    ensures
        project_file(MidiFileModel { timing, format: FormatModel::Simultaneous(ts) })
            == project_track(ts[0], ts[0].info.tempo, timing) + project_tracks(
            ts.skip(1),
            Some(ts[0].info.tempo),
            timing,
        ),
{
}

/// The conductor-track convention: in a simultaneous file the first
/// track's resolved tempo is authoritative for every track.  Two
/// simultaneous files whose tracks differ only in their declared tempos,
/// with the first track's tempo equal, project to the very same stream.
pub proof fn lemma_simultaneous_tempo_authoritative(
    timing: Timing,
    ts: Seq<TrackModel>,
    ts2: Seq<TrackModel>,
)
    requires
        ts.len() == ts2.len(),
        ts.len() > 0,
        ts2[0].info.tempo == ts[0].info.tempo,
        forall|i: int| 0 <= i < ts.len() ==> #[trigger] ts2[i].events == ts[i].events,
        forall|i: int| 0 <= i < ts.len() ==> #[trigger] ts2[i].info == (TrackInfoModel {
            tempo: ts2[i].info.tempo,
            ..ts[i].info
        }),
    ensures
        project_file(MidiFileModel { timing, format: FormatModel::Simultaneous(ts) })
            == project_file(MidiFileModel { timing, format: FormatModel::Simultaneous(ts2) }),
{
    lemma_project_tracks_tempo_only(timing, ts, ts2, ts[0].info.tempo);
}

/// Under a fixed conductor tempo, tracks that differ only in their
/// declared tempos project identically.
proof fn lemma_project_tracks_tempo_only(
    timing: Timing,
    ts: Seq<TrackModel>,
    ts2: Seq<TrackModel>,
    tempo: Tempo,
)
    requires
        ts.len() == ts2.len(),
        forall|i: int| 0 <= i < ts.len() ==> #[trigger] ts2[i].events == ts[i].events,
        forall|i: int| 0 <= i < ts.len() ==> #[trigger] ts2[i].info == (TrackInfoModel {
            tempo: ts2[i].info.tempo,
            ..ts[i].info
        }),
    ensures
        project_tracks(ts, Some(tempo), timing) == project_tracks(ts2, Some(tempo), timing),
    decreases ts.len(),
{
    if ts.len() > 0 {
        assert(ts2[0].info.smpte_offset == ts[0].info.smpte_offset);
        assert(offset_num(ts2[0].info, timing) == offset_num(ts[0].info, timing));
        assert(offset_den(ts2[0].info, timing) == offset_den(ts[0].info, timing));
        assert(project_track(ts[0], tempo, timing) =~= project_track(ts2[0], tempo, timing));
        assert forall|i: int| 0 <= i < ts.skip(1).len() implies #[trigger] ts2.skip(1)[i].events
            == ts.skip(1)[i].events by {
            assert(ts.skip(1)[i] == ts[i + 1]);
            assert(ts2.skip(1)[i] == ts2[i + 1]);
        }
        assert forall|i: int| 0 <= i < ts.skip(1).len() implies #[trigger] ts2.skip(1)[i].info
            == (TrackInfoModel { tempo: ts2.skip(1)[i].info.tempo, ..ts.skip(1)[i].info }) by {
            assert(ts.skip(1)[i] == ts[i + 1]);
            assert(ts2.skip(1)[i] == ts2[i + 1]);
        }
        lemma_project_tracks_tempo_only(timing, ts.skip(1), ts2.skip(1), tempo);
    }
}

/// Compute one event's timestamp.
fn timed_stamp(rn: u64, rd: u64, on: u64, od: u64, ticks: u32) -> (r: u64)
    requires
        rn <= u32::MAX,
        rd <= u16::MAX,
        1 <= od <= 30000,
        on <= 0x100_0000_0000_0000,
    ensures
        r == event_micros(rn as int, rd as int, on as int, od as int, ticks as int),
{
    if rd == 0 {
        return u64::MAX;
    }
    proof {
        assert((ticks as u128) * (rn as u128) <= 0xFFFF_FFFFu128 * 0xFFFF_FFFFu128)
            by (nonlinear_arith)
            requires
                ticks <= 0xFFFF_FFFFu32,
                rn <= 0xFFFF_FFFFu64,
        ;
        assert((ticks as u128) * (rn as u128) * (od as u128) <= 0xFFFF_FFFFu128
            * 0xFFFF_FFFFu128 * 30000u128) by (nonlinear_arith)
            requires
                ticks <= 0xFFFF_FFFFu32,
                rn <= 0xFFFF_FFFFu64,
                od <= 30000u64,
        ;
        assert((on as u128) * (rd as u128) <= 0x100_0000_0000_0000u128 * 0xFFFFu128)
            by (nonlinear_arith)
            requires
                on <= 0x100_0000_0000_0000u64,
                rd <= 0xFFFFu64,
        ;
        assert((rd as u128) * (od as u128) <= 0xFFFFu128 * 30000u128) by (nonlinear_arith)
            requires
                rd <= 0xFFFFu64,
                od <= 30000u64,
        ;
    }
    let n: u128 = (ticks as u128) * (rn as u128) * (od as u128) + (on as u128) * (rd as u128);
    let d: u128 = (rd as u128) * (od as u128);
    proof {
        assert((rd as u128) * (od as u128) >= 1) by (nonlinear_arith)
            requires
                rd >= 1u64,
                od >= 1u64,
        ;
    }
    let q: u128 = n / d;
    if q > 0xFFFF_FFFF_FFFF_FFFFu128 {
        u64::MAX
    } else {
        q as u64
    }
}

/// Append one track's projection under the given tempo.
fn project_into(track: &Track, tempo: Tempo, timing: Timing, out: &mut Vec<Timed<LiveEvent>>)
    ensures
        final(out)@.map_values(|e: Timed<LiveEvent>| e@) == old(out)@.map_values(
            |e: Timed<LiveEvent>| e@,
        ) + project_track(track@, tempo, timing),
{
    let ghost model = track@;
    let rn: u64 = match timing {
        Timing::TicksPerQuarterNote(_) => tempo.micros_per_quarter_note() as u64,
        Timing::Smpte(_) => 1_000_000,
    };
    let rd: u64 = match timing {
        Timing::TicksPerQuarterNote(t) => t.ticks_per_quarter_note() as u64,
        Timing::Smpte(h) => {
            let division = h.fps().as_division() as u64;
            let tpf = h.ticks_per_frame() as u64;
            proof {
                assert(division * tpf <= 30u64 * 255u64) by (nonlinear_arith)
                    requires
                        division <= 30u64,
                        tpf <= 255u64,
                ;
            }
            division * tpf
        },
    };
    let (on, od): (u64, u64) = match &track.info.smpte_offset {
        None => (0u64, 1u64),
        Some(o) => {
            let fps = match timing {
                Timing::Smpte(h) => h.fps(),
                Timing::TicksPerQuarterNote(_) => o.fps,
            };
            let base: u64 = ((o.hour as u64) * 3600 + (o.minute as u64) * 60 + (o.second as u64))
                * 1_000_000;
            let sub: u64 = (o.frame as u64) * 1_000_000 + (o.subframe as u64) * 10_000;
            let num: u64 = fps.numer() as u64;
            let den: u64 = fps.denom() as u64;
            proof {
                assert(base * num <= 933_555_000_000u64 * 30000u64) by (nonlinear_arith)
                    requires
                        base <= 933_555_000_000u64,
                        num <= 30000u64,
                ;
                assert(sub * den <= 257_550_000u64 * 1001u64) by (nonlinear_arith)
                    requires
                        sub <= 257_550_000u64,
                        den <= 1001u64,
                ;
            }
            (base * num + sub * den, num)
        },
    };
    proof {
        assert(rn == rate_num(timing, tempo));
        assert(rd == rate_den(timing));
        assert(on == offset_num(model.info, timing));
        assert(od == offset_den(model.info, timing));
    }
    let ghost projected = project_track(model, tempo, timing);
    let ghost base = out@.map_values(|e: Timed<LiveEvent>| e@);
    let events = &track.events;
    let mut i: usize = 0;
    proof {
        assert(base =~= base + projected.subrange(0, 0));
    }
    while i < events.len()
        invariant
            rn <= u32::MAX,
            rd <= u16::MAX,
            1 <= od <= 30000,
            on <= 0x100_0000_0000_0000,
            rn == rate_num(timing, tempo),
            rd == rate_den(timing),
            on == offset_num(model.info, timing),
            od == offset_den(model.info, timing),
            i <= events@.len(),
            model == track@,
            projected == project_track(model, tempo, timing),
            base == old(out)@.map_values(|e: Timed<LiveEvent>| e@),
            events@.map_values(|e: Ticked<LiveEvent>| e@) == model.events,
            out@.map_values(|e: Timed<LiveEvent>| e@) =~= base + projected.subrange(
                0,
                i as int,
            ),
        decreases events@.len() - i,
    {
        let e = &events[i];
        let ghost em = e@;
        let ticks = e.accumulated_ticks();
        let stamp = timed_stamp(rn, rd, on, od, ticks);
        let live: LiveEvent = match &e.event {
            LiveEvent::ChannelVoice(cvm) => LiveEvent::ChannelVoice(*cvm),
            LiveEvent::SysCommon(SystemCommonMessage::SystemExclusive(sx)) => {
                LiveEvent::SysCommon(
                    SystemCommonMessage::SystemExclusive(
                        SystemExclusiveMessage::new(crate::track::copy_bytes(&sx.0)),
                    ),
                )
            },
        };
        proof {
            assert(live@ == em.event);
            assert(em == model.events[i as int]);
            assert(projected[i as int] == TimedModel {
                timestamp: event_micros(
                    rate_num(timing, tempo),
                    rate_den(timing),
                    offset_num(model.info, timing),
                    offset_den(model.info, timing),
                    em.accumulated_ticks as int,
                ),
                event: em.event,
            });
        }
        let pushed = Timed::new(stamp, live);
        let ghost pm = pushed@;
        let ghost out_pre = out@;
        out.push(pushed);
        proof {
            assert(pm == projected[i as int]);
            assert(projected.len() == model.events.len());
            assert(model.events.len() == events@.len());
            assert(i + 1 <= projected.len());
            assert(out@ == out_pre.push(pushed));
            assert(out_pre.map_values(|e: Timed<LiveEvent>| e@) == base
                + projected.subrange(0, i as int));
            assert(projected.subrange(0, i as int).len() == i);
            assert(out_pre.map_values(|e: Timed<LiveEvent>| e@).len() == out_pre.len());
            assert((base + projected.subrange(0, i as int)).len() == base.len() + i);
            assert(out_pre.len() == base.len() + i);
            assert(out@.map_values(|e: Timed<LiveEvent>| e@) =~= out_pre.map_values(
                |e: Timed<LiveEvent>| e@,
            ).push(pm));
            assert(projected.subrange(0, i + 1) =~= projected.subrange(0, i as int).push(
                projected[i as int],
            ));
            assert(out@.map_values(|e: Timed<LiveEvent>| e@) =~= base + projected.subrange(
                0,
                i + 1,
            ));
        }
        i += 1;
    }
    proof {
        assert(projected.subrange(0, projected.len() as int) =~= projected);
    }
}

/// Append every track's projection, in stored order.
fn project_all(
    tracks: &Vec<Track>,
    tempo: Option<Tempo>,
    timing: Timing,
    out: &mut Vec<Timed<LiveEvent>>,
)
    ensures
        final(out)@.map_values(|e: Timed<LiveEvent>| e@) == old(out)@.map_values(
            |e: Timed<LiveEvent>| e@,
        ) + project_tracks(tracks@.map_values(|t: Track| t@), tempo, timing),
{
    let ghost ts = tracks@.map_values(|t: Track| t@);
    let ghost base = out@.map_values(|e: Timed<LiveEvent>| e@);
    let mut i: usize = 0;
    proof {
        assert(ts.skip(0) =~= ts);
    }
    while i < tracks.len()
        invariant
            i <= ts.len(),
            ts == tracks@.map_values(|t: Track| t@),
            base == old(out)@.map_values(|e: Timed<LiveEvent>| e@),
            out@.map_values(|e: Timed<LiveEvent>| e@) + project_tracks(
                ts.skip(i as int),
                tempo,
                timing,
            ) =~= base + project_tracks(ts, tempo, timing),
        decreases ts.len() - i,
    {
        let ghost rest = ts.skip(i as int);
        let ghost out_before = out@.map_values(|e: Timed<LiveEvent>| e@);
        let t = &tracks[i];
        let ghost tm = t@;
        let own = match tempo {
            Some(t0) => t0,
            None => t.info.tempo,
        };
        proof {
            assert(tm == ts[i as int]);
            assert(rest[0] == ts[i as int]);
            assert(rest.skip(1) =~= ts.skip(i + 1));
            assert(project_tracks(rest, tempo, timing) == project_track(tm, own, timing)
                + project_tracks(ts.skip(i + 1), tempo, timing));
        }
        project_into(t, own, timing, out);
        proof {
            assert(out@.map_values(|e: Timed<LiveEvent>| e@) + project_tracks(
                ts.skip(i + 1),
                tempo,
                timing,
            ) =~= out_before + project_tracks(rest, tempo, timing));
        }
        i += 1;
    }
    proof {
        assert(ts.skip(ts.len() as int) =~= Seq::<TrackModel>::empty());
        assert(out@.map_values(|e: Timed<LiveEvent>| e@) + Seq::<
            TimedModel<LiveEventModel>,
        >::empty() =~= out@.map_values(|e: Timed<LiveEvent>| e@));
    }
}

} // verus!
