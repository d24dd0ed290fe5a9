//! Decoding a track chunk body into events, and assembling those events
//! into a finished track.
//!
//! A body decodes under one fresh running-status cell, never shared
//! across tracks.  Assembly accumulates delta times into absolute tick
//! counts, keeps channel-voice and system-exclusive events, and folds
//! every meta event into the track's side-channel [`TrackInfo`] — the
//! last write to each field wins, earlier values are discarded entirely.

use vstd::prelude::*;

use crate::bytes::StatusByte;
use crate::channel::Channel;
use crate::error::{ReadResult, ReaderError, ReaderErrorKind};
use crate::events::{LiveEvent, LiveEventModel, MetaMessage, MetaModel, SystemCommonMessage, SystemCommonModel, SystemExclusiveMessage, TimeSignature, TrackEvent, TrackEventModel, TrackMessage, TrackMessageModel};
use crate::reader::{EventOutcome, read_track_event, spec_event};
use crate::smpte_offset::SmpteOffset;
use crate::tempo::{DEFAULT_TEMPO_MICROS, Tempo};
use crate::time::{Ticked, TickedModel};

verus! {

/// The outcome of decoding a whole track body into events.
pub enum TrackOutcome {
    /// Every event of the body, in order.
    Events(Seq<TrackEventModel>),
    /// A failure: its position within the body, and its kind.
    Failure(int, ReaderErrorKind),
}

/// What decoding a whole track body from `s` under running status `rs`
/// yields: events back to back until the body is exhausted, each read as
/// [`spec_event`] says.
pub open spec fn spec_track_events(s: Seq<u8>, rs: Option<StatusByte>) -> TrackOutcome
    decreases s.len(),
{
    if s.len() == 0 {
        TrackOutcome::Events(Seq::empty())
    } else {
        match spec_event(s, rs) {
            EventOutcome::Failure(p, k) => TrackOutcome::Failure(p, k),
            EventOutcome::Event(m, n, rs2) => {
                if 1 <= n <= s.len() {
                    match spec_track_events(s.skip(n), rs2) {
                        TrackOutcome::Events(es) => TrackOutcome::Events(seq![m] + es),
                        TrackOutcome::Failure(p, k) => TrackOutcome::Failure(n + p, k),
                    }
                } else {
                    // an event never spans more bytes than remain
                    TrackOutcome::Failure(0, ReaderErrorKind::OutOfBounds)
                }
            },
        }
    }
}

/// One decoding step: with one event read off the front, the whole
/// body's outcome is that event before the rest's outcome, errors
/// shifted by the event's span.
proof fn lemma_track_step(s: Seq<u8>, rs: Option<StatusByte>, m: TrackEventModel, n: int, rs2: Option<StatusByte>)
    requires
        spec_event(s, rs) == EventOutcome::Event(m, n, rs2),
        1 <= n <= s.len(),
    ensures
        match spec_track_events(s.skip(n), rs2) {
            TrackOutcome::Events(es) => spec_track_events(s, rs) == TrackOutcome::Events(
                seq![m] + es,
            ),
            TrackOutcome::Failure(p, k) => spec_track_events(s, rs) == TrackOutcome::Failure(
                n + p,
                k,
            ),
        },
{
}

/// Decode a whole track chunk body into its events.
///
/// The running status starts empty and lives for exactly this one body.
/// Failure positions are relative to the body's start.
#[verifier::rlimit(100)]
pub fn decode_track_events(body: &[u8]) -> (r: ReadResult<Vec<TrackEvent>>)
    ensures
        match spec_track_events(body@, None) {
            TrackOutcome::Events(es) => {
                &&& r matches Ok(v)
                &&& v@.map_values(|e: TrackEvent| e@) == es
            },
            TrackOutcome::Failure(p, k) => r == Err::<Vec<TrackEvent>, _>(
                ReaderError { position: p as usize, kind: k },
            ),
        },
{
    let mut out: Vec<TrackEvent> = Vec::new();
    let mut running: Option<StatusByte> = None;
    let mut pos: usize = 0;
    proof {
        assert(body@.skip(0) =~= body@);
        if let TrackOutcome::Events(es) = spec_track_events(body@, None) {
            assert(out@.map_values(|e: TrackEvent| e@) + es =~= es);
        }
    }
    loop
        invariant
            pos <= body@.len(),
            match spec_track_events(body@.skip(pos as int), running) {
                TrackOutcome::Events(es) => spec_track_events(body@, None)
                    == TrackOutcome::Events(out@.map_values(|e: TrackEvent| e@) + es),
                TrackOutcome::Failure(p, k) => spec_track_events(body@, None)
                    == TrackOutcome::Failure(pos + p, k),
            },
        decreases body@.len() - pos,
    {
        if pos == body.len() {
            proof {
                assert(body@.skip(pos as int) =~= Seq::<u8>::empty());
                assert(out@.map_values(|e: TrackEvent| e@) + Seq::<TrackEventModel>::empty()
                    =~= out@.map_values(|e: TrackEvent| e@));
            }
            return Ok(out);
        }
        let ghost rest = body@.skip(pos as int);
        let ghost rs_before = running;
        match read_track_event(body, pos, &mut running) {
            Ok((ev, end)) => {
                proof {
                    let m = ev@;
                    let n = end - pos;
                    lemma_track_step(rest, rs_before, m, n, running);
                    assert(rest.skip(n) =~= body@.skip(end as int));
                    if let TrackOutcome::Events(es) = spec_track_events(
                        body@.skip(end as int),
                        running,
                    ) {
                        assert(out@.map_values(|e: TrackEvent| e@) + (seq![m] + es)
                            =~= out@.push(ev).map_values(|e: TrackEvent| e@) + es);
                    }
                }
                out.push(ev);
                pos = end;
            },
            Err(e) => {
                return Err(e);
            },
        }
    }
}

/// Information about a track, folded out of its meta events.
///
/// Every field keeps the value of the last meta event of its kind — not a
/// history: a mid-track tempo change survives only as the final value.
#[derive(Clone, Debug, PartialEq, Eq)]
pub struct TrackInfo {
    /// The time signature; 4/4 when the track declares none.
    pub time_signature: TimeSignature,
    /// The track's name, if a name meta event appeared.
    pub name: Option<Vec<u8>>,
    /// The device's name, if one appeared.
    pub device: Option<Vec<u8>>,
    /// The sequence number, if one appeared.
    pub track_info: Option<u16>,
    /// The channel hint, if one appeared.
    pub channel: Option<Channel>,
    /// The tempo; 500,000 microseconds per quarter note when the track
    /// declares none.
    pub tempo: Tempo,
    /// The SMPTE offset, if one appeared.  Kept even when the file's
    /// timing is not SMPTE.
    pub smpte_offset: Option<SmpteOffset>,
}

/// The spec-level model of a [`TrackInfo`].
pub struct TrackInfoModel {
    /// The time signature.
    pub time_signature: TimeSignature,
    /// The track's name bytes.
    pub name: Option<Seq<u8>>,
    /// The device's name bytes.
    pub device: Option<Seq<u8>>,
    /// The sequence number.
    pub track_info: Option<u16>,
    /// The channel hint.
    pub channel: Option<Channel>,
    /// The tempo.
    pub tempo: Tempo,
    /// The SMPTE offset.
    pub smpte_offset: Option<SmpteOffset>,
}

impl View for TrackInfo {
    type V = TrackInfoModel;

    open spec fn view(&self) -> TrackInfoModel {
        TrackInfoModel {
            time_signature: self.time_signature,
            name: match self.name {
                Some(v) => Some(v@),
                None => None,
            },
            device: match self.device {
                Some(v) => Some(v@),
                None => None,
            },
            track_info: self.track_info,
            channel: self.channel,
            tempo: self.tempo,
            smpte_offset: self.smpte_offset,
        }
    }
}

impl TrackInfoModel {
    /// The information of a track before any meta event is folded in.
    pub open spec fn spec_default() -> TrackInfoModel {
        TrackInfoModel {
            time_signature: TimeSignature::spec_default(),
            name: None,
            device: None,
            track_info: None,
            channel: None,
            tempo: Tempo(DEFAULT_TEMPO_MICROS),
            smpte_offset: None,
        }
    }
}

/// Fold one meta event into the track information: the fields it speaks
/// of are overwritten, the rest keep their values.
pub open spec fn info_step(info: TrackInfoModel, m: MetaModel) -> TrackInfoModel {
    match m {
        MetaModel::Tempo(t) => TrackInfoModel { tempo: t, ..info },
        MetaModel::TimeSignature(ts) => TrackInfoModel { time_signature: ts, ..info },
        MetaModel::SmpteOffset(o) => TrackInfoModel { smpte_offset: Some(o), ..info },
        MetaModel::TrackName(b) => TrackInfoModel { name: Some(b), ..info },
        MetaModel::DeviceName(b) => TrackInfoModel { device: Some(b), ..info },
        MetaModel::SequenceNumber(n) => TrackInfoModel { track_info: Some(n), ..info },
        MetaModel::MidiChannel(c) => TrackInfoModel { channel: Some(c), ..info },
        _ => info,
    }
}

/// A finished track: its folded information, and its retained events,
/// each tagged with the ticks accumulated since the track's start.
#[derive(Clone, Debug, PartialEq, Eq)]
pub struct Track {
    /// The folded information.
    pub info: TrackInfo,
    /// The retained events.
    pub events: Vec<Ticked<LiveEvent>>,
}

/// The spec-level model of a [`Track`].
pub struct TrackModel {
    /// The model of the folded information.
    pub info: TrackInfoModel,
    /// The models of the retained events.
    pub events: Seq<TickedModel<LiveEventModel>>,
}

impl View for Track {
    type V = TrackModel;

    open spec fn view(&self) -> TrackModel {
        TrackModel {
            info: self.info@,
            events: self.events@.map_values(|e: Ticked<LiveEvent>| e@),
        }
    }
}

/// Assembly of the events from `i` on, having accumulated `tick` ticks,
/// the retained events `live` and the information `info` so far.
///
/// Delta times accumulate modulo `2^32`.  Channel-voice and
/// system-exclusive messages are retained with their accumulated tick;
/// meta messages are folded into the information and dropped.
pub open spec fn assemble_from(
    events: Seq<TrackEventModel>,
    i: int,
    tick: u32,
    live: Seq<TickedModel<LiveEventModel>>,
    info: TrackInfoModel,
) -> TrackModel
    decreases events.len() - i,
{
    if i < 0 || i >= events.len() {
        TrackModel { info, events: live }
    } else {
        let e = events[i];
        let tick2 = ((tick + e.delta_time) % 0x1_0000_0000) as u32;
        match e.event {
            TrackMessageModel::ChannelVoice(cvm) => assemble_from(
                events,
                i + 1,
                tick2,
                live.push(
                    TickedModel {
                        accumulated_ticks: tick2,
                        event: LiveEventModel::ChannelVoice(cvm),
                    },
                ),
                info,
            ),
            TrackMessageModel::SystemExclusive(b) => assemble_from(
                events,
                i + 1,
                tick2,
                live.push(
                    TickedModel {
                        accumulated_ticks: tick2,
                        event: LiveEventModel::SysCommon(SystemCommonModel::SystemExclusive(b)),
                    },
                ),
                info,
            ),
            TrackMessageModel::Meta(m) => assemble_from(
                events,
                i + 1,
                tick2,
                live,
                info_step(info, m),
            ),
        }
    }
}

/// What assembling a sequence of track events yields.
pub open spec fn spec_assemble(events: Seq<TrackEventModel>) -> TrackModel {
    assemble_from(events, 0, 0, Seq::empty(), TrackInfoModel::spec_default())
}

/// Copy a byte vector, element by element.
pub(crate) fn copy_bytes(v: &Vec<u8>) -> (r: Vec<u8>)
    ensures
        r@ == v@,
{
    let mut r: Vec<u8> = Vec::new();
    let mut i: usize = 0;
    assert(r@ =~= v@.subrange(0, 0));
    while i < v.len()
        invariant
            i <= v@.len(),
            r@ == v@.subrange(0, i as int),
        decreases v@.len() - i,
    {
        r.push(v[i]);
        assert(r@ =~= v@.subrange(0, i + 1));
        i += 1;
    }
    assert(r@ =~= v@);
    r
}

impl Track {
    /// Assemble a new track from the ordered events of one chunk body.
    pub fn new(events: Vec<TrackEvent>) -> (r: Track)
        ensures
            r@ == spec_assemble(events@.map_values(|e: TrackEvent| e@)),
    {
        let ghost models = events@.map_values(|e: TrackEvent| e@);
        let mut info = TrackInfo {
            time_signature: TimeSignature::default(),
            name: None,
            device: None,
            track_info: None,
            channel: None,
            tempo: Tempo::default(),
            smpte_offset: None,
        };
        let mut live: Vec<Ticked<LiveEvent>> = Vec::new();
        let mut tick: u32 = 0;
        let mut i: usize = 0;
        proof {
            assert(live@.map_values(|e: Ticked<LiveEvent>| e@)
                =~= Seq::<TickedModel<LiveEventModel>>::empty());
            assert(info@ == TrackInfoModel::spec_default());
        }
        while i < events.len()
            invariant
                i <= events@.len(),
                models == events@.map_values(|e: TrackEvent| e@),
                spec_assemble(models) == assemble_from(
                    models,
                    i as int,
                    tick,
                    live@.map_values(|e: Ticked<LiveEvent>| e@),
                    info@,
                ),
            decreases events@.len() - i,
        {
            let ghost live_before = live@.map_values(|e: Ticked<LiveEvent>| e@);
            let e = &events[i];
            assert(models[i as int] == e@);
            let tick2: u32 = (((tick as u64) + (e.delta_time as u64)) % 0x1_0000_0000u64) as u32;
            tick = tick2;
            match &e.event {
                TrackMessage::ChannelVoice(cvm) => {
                    let ev = Ticked::new(tick2, LiveEvent::ChannelVoice(*cvm));
                    live.push(ev);
                    proof {
                        assert(live@.map_values(|e: Ticked<LiveEvent>| e@) =~= live_before.push(
                            TickedModel {
                                accumulated_ticks: tick2,
                                event: LiveEventModel::ChannelVoice(*cvm),
                            },
                        ));
                    }
                },
                TrackMessage::SystemExclusive(sysex) => {
                    let data = copy_bytes(&sysex.0);
                    let ev = Ticked::new(
                        tick2,
                        LiveEvent::SysCommon(
                            SystemCommonMessage::SystemExclusive(SystemExclusiveMessage::new(data)),
                        ),
                    );
                    live.push(ev);
                    proof {
                        assert(live@.map_values(|e: Ticked<LiveEvent>| e@) =~= live_before.push(
                            TickedModel {
                                accumulated_ticks: tick2,
                                event: LiveEventModel::SysCommon(
                                    SystemCommonModel::SystemExclusive(sysex@),
                                ),
                            },
                        ));
                    }
                },
                TrackMessage::Meta(m) => {
                    match m {
                        MetaMessage::Tempo(t) => {
                            info.tempo = *t;
                        },
                        MetaMessage::TimeSignature(ts) => {
                            info.time_signature = *ts;
                        },
                        MetaMessage::SmpteOffset(o) => {
                            info.smpte_offset = Some(*o);
                        },
                        MetaMessage::TrackName(b) => {
                            info.name = Some(copy_bytes(b));
                        },
                        MetaMessage::DeviceName(b) => {
                            info.device = Some(copy_bytes(b));
                        },
                        MetaMessage::SequenceNumber(n) => {
                            info.track_info = Some(*n);
                        },
                        MetaMessage::MidiChannel(c) => {
                            info.channel = Some(*c);
                        },
                        _ => {},
                    }
                },
            }
            i += 1;
        }
        let r = Track { info, events: live };
        proof {
            assert(assemble_from(
                models,
                events@.len() as int,
                tick,
                live@.map_values(|e: Ticked<LiveEvent>| e@),
                info@,
            ) == r@);
        }
        r
    }

    /// Get information about the track.
    pub fn info(&self) -> (r: &TrackInfo)
        ensures
            r@ == self@.info,
    {
        &self.info
    }

    /// Get the tick-tagged events of the track.
    pub fn events(&self) -> (r: &Vec<Ticked<LiveEvent>>)
        ensures
            r@.map_values(|e: Ticked<LiveEvent>| e@) == self@.events,
    {
        &self.events
    }
}

/// A track with no tempo meta event resolves to the default tempo of
/// 500,000 microseconds per quarter-note.
pub proof fn lemma_tempo_default(events: Seq<TrackEventModel>)
    requires
        forall|i: int| 0 <= i < events.len() ==> !(#[trigger] events[i].event matches
            TrackMessageModel::Meta(MetaModel::Tempo(_))),
    ensures
        spec_assemble(events).info.tempo == Tempo(DEFAULT_TEMPO_MICROS),
{
    lemma_tempo_untouched(events, 0, 0, Seq::empty(), TrackInfoModel::spec_default());
}

/// Assembly never changes the tempo where no tempo meta event remains.
proof fn lemma_tempo_untouched(
    events: Seq<TrackEventModel>,
    i: int,
    tick: u32,
    live: Seq<TickedModel<LiveEventModel>>,
    info: TrackInfoModel,
)
    requires
        forall|j: int| i <= j < events.len() ==> !(#[trigger] events[j].event matches
            TrackMessageModel::Meta(MetaModel::Tempo(_))),
    ensures
        assemble_from(events, i, tick, live, info).info.tempo == info.tempo,
    decreases events.len() - i,
{
    if 0 <= i < events.len() {
        let e = events[i];
        let tick2 = ((tick + e.delta_time) % 0x1_0000_0000) as u32;
        match e.event {
            TrackMessageModel::ChannelVoice(cvm) => {
                lemma_tempo_untouched(
                    events,
                    i + 1,
                    tick2,
                    live.push(
                        TickedModel {
                            accumulated_ticks: tick2,
                            event: LiveEventModel::ChannelVoice(cvm),
                        },
                    ),
                    info,
                );
            },
            TrackMessageModel::SystemExclusive(b) => {
                lemma_tempo_untouched(
                    events,
                    i + 1,
                    tick2,
                    live.push(
                        TickedModel {
                            accumulated_ticks: tick2,
                            event: LiveEventModel::SysCommon(
                                SystemCommonModel::SystemExclusive(b),
                            ),
                        },
                    ),
                    info,
                );
            },
            TrackMessageModel::Meta(m) => {
                lemma_tempo_untouched(events, i + 1, tick2, live, info_step(info, m));
            },
        }
    }
}

} // verus!
