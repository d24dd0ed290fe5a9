//! The byte-level event reader: one track event at a time, with running
//! status.
//!
//! The grammar of one track event is laid out by [`spec_event`], a total
//! function over the remaining bytes and the stored running status; the
//! executable reader is proved to return exactly what it says.  Failure
//! positions are relative to the start of the remaining bytes: an
//! out-of-bounds failure sits at their end, a malformed item at its own
//! offending byte.

use vstd::prelude::*;

use crate::bytes::StatusByte;
use crate::channel::Channel;
use crate::error::{ParseError, ReadResult, ReaderError, ReaderErrorKind};
use crate::events::{MetaMessage, MetaModel, SystemExclusiveMessage, TimeSignature, TrackEvent, TrackEventModel, TrackMessage, TrackMessageModel};
use crate::message::{ChannelVoiceMessage, VoiceOutcome, spec_voice};
use crate::smpte_offset::{SmpteOffset, spec_parse_offset};
use crate::tempo::{Tempo, tempo_of_bytes};
use crate::vlq::{VlqOutcome, decode_vlq, spec_vlq};

verus! {

/// What a meta payload of type `t` denotes.
///
/// Sequence number, channel, end-of-track, tempo, SMPTE offset and time
/// signature are structured; the text kinds keep their bytes; everything
/// else is retained verbatim.  Only the SMPTE offset can fail.
pub open spec fn spec_meta(t: u8, payload: Seq<u8>) -> Result<MetaModel, crate::error::SmpteError> {
    if t == 0x00 {
        if payload.len() >= 2 {
            Ok(MetaModel::SequenceNumber((payload[0] * 0x100 + payload[1]) as u16))
        } else {
            Ok(MetaModel::Unknown(t, payload))
        }
    } else if t == 0x01 {
        Ok(MetaModel::Text(payload))
    } else if t == 0x02 {
        Ok(MetaModel::Copyright(payload))
    } else if t == 0x03 {
        Ok(MetaModel::TrackName(payload))
    } else if t == 0x04 {
        Ok(MetaModel::InstrumentName(payload))
    } else if t == 0x05 {
        Ok(MetaModel::Lyric(payload))
    } else if t == 0x06 {
        Ok(MetaModel::Marker(payload))
    } else if t == 0x07 {
        Ok(MetaModel::CuePoint(payload))
    } else if t == 0x08 {
        Ok(MetaModel::ProgramName(payload))
    } else if t == 0x09 {
        Ok(MetaModel::DeviceName(payload))
    } else if t == 0x20 {
        if payload.len() >= 1 && payload[0] <= 15 {
            Ok(MetaModel::MidiChannel(Channel::spec_from_byte(payload[0]).unwrap()))
        } else {
            Ok(MetaModel::Unknown(t, payload))
        }
    } else if t == 0x2F {
        Ok(MetaModel::EndOfTrack)
    } else if t == 0x51 {
        Ok(MetaModel::Tempo(Tempo(tempo_of_bytes(payload))))
    } else if t == 0x54 {
        match spec_parse_offset(payload) {
            Ok(o) => Ok(MetaModel::SmpteOffset(o)),
            Err(e) => Err(e),
        }
    } else if t == 0x58 {
        Ok(MetaModel::TimeSignature(TimeSignature::spec_from_bytes(payload)))
    } else {
        Ok(MetaModel::Unknown(t, payload))
    }
}

/// Dispatch a meta event by its type byte, taking ownership of its
/// payload.
pub fn read_meta(t: u8, payload: Vec<u8>) -> (r: Result<MetaMessage, crate::error::SmpteError>)
    ensures
        match spec_meta(t, payload@) {
            Ok(m) => r matches Ok(mm) && mm@ == m,
            Err(e) => r matches Err(e2) && e == e2,
        },
{
    match t {
        0x00 => {
            if payload.len() >= 2 {
                Ok(MetaMessage::SequenceNumber((payload[0] as u16) * 0x100 + (payload[1] as u16)))
            } else {
                Ok(MetaMessage::Unknown(t, payload))
            }
        },
        0x01 => Ok(MetaMessage::Text(payload)),
        0x02 => Ok(MetaMessage::Copyright(payload)),
        0x03 => Ok(MetaMessage::TrackName(payload)),
        0x04 => Ok(MetaMessage::InstrumentName(payload)),
        0x05 => Ok(MetaMessage::Lyric(payload)),
        0x06 => Ok(MetaMessage::Marker(payload)),
        0x07 => Ok(MetaMessage::CuePoint(payload)),
        0x08 => Ok(MetaMessage::ProgramName(payload)),
        0x09 => Ok(MetaMessage::DeviceName(payload)),
        0x20 => {
            if payload.len() >= 1 && payload[0] <= 15 {
                match Channel::try_from_byte(payload[0]) {
                    Some(c) => Ok(MetaMessage::MidiChannel(c)),
                    None => Ok(MetaMessage::Unknown(t, payload)),
                }
            } else {
                Ok(MetaMessage::Unknown(t, payload))
            }
        },
        0x2F => Ok(MetaMessage::EndOfTrack),
        0x51 => Ok(MetaMessage::Tempo(Tempo::new_from_bytes(payload.as_slice()))),
        0x54 => {
            match SmpteOffset::parse(payload.as_slice()) {
                Ok(o) => Ok(MetaMessage::SmpteOffset(o)),
                Err(e) => Err(e),
            }
        },
        0x58 => Ok(MetaMessage::TimeSignature(TimeSignature::from_bytes(payload.as_slice()))),
        _ => Ok(MetaMessage::Unknown(t, payload)),
    }
}

/// The outcome of reading one track event from the front of a byte
/// sequence under a given running status.
pub enum EventOutcome {
    /// The event, how many bytes it spanned, and the running status left
    /// behind.
    Event(TrackEventModel, int, Option<StatusByte>),
    /// A failure: its position relative to the front, and its kind.
    Failure(int, ReaderErrorKind),
}

/// What reading one track event from the front of `s` yields, under
/// running status `rs`.
///
/// A delta-time quantity comes first.  Then `0xF0` opens a system
/// exclusive block (a length quantity and that many bytes, dropping a
/// final `0xF7`), `0xFF` a meta event (a type byte, a length quantity and
/// that many bytes); either leaves the running status alone.  Any other
/// byte with its high bit set becomes the new running status and a
/// channel-voice body follows; a byte with its high bit clear is the
/// first data byte of a body reusing the stored running status, and fails
/// when none is stored.
pub open spec fn spec_event(s: Seq<u8>, rs: Option<StatusByte>) -> EventOutcome {
    match spec_vlq(s) {
        VlqOutcome::Short => EventOutcome::Failure(s.len() as int, ReaderErrorKind::OutOfBounds),
        VlqOutcome::Overlong => EventOutcome::Failure(
            0,
            ReaderErrorKind::ParseError(ParseError::InvalidVlq),
        ),
        VlqOutcome::Value(delta, dl) => {
            if s.len() <= dl {
                EventOutcome::Failure(s.len() as int, ReaderErrorKind::OutOfBounds)
            } else {
                let b = s[dl as int];
                if b == 0xF0 {
                    spec_event_sysex(s, delta, dl as int, rs)
                } else if b == 0xFF {
                    spec_event_meta(s, delta, dl as int, rs)
                } else if b >= 0x80 {
                    if b / 16 == 0xF {
                        EventOutcome::Failure(
                            dl as int,
                            ReaderErrorKind::ParseError(ParseError::InvalidStatusByte(b)),
                        )
                    } else {
                        spec_event_voice(s, delta, dl + 1, StatusByte(b), rs)
                    }
                } else {
                    match rs {
                        None => EventOutcome::Failure(
                            dl as int,
                            ReaderErrorKind::ParseError(ParseError::NoRunningStatus),
                        ),
                        Some(st) => spec_event_voice(s, delta, dl as int, st, rs),
                    }
                }
            }
        },
    }
}

/// The system exclusive arm of [`spec_event`]: the length quantity sits
/// just past the `0xF0` byte at `dl`.
pub open spec fn spec_event_sysex(s: Seq<u8>, delta: u32, dl: int, rs: Option<StatusByte>) -> EventOutcome {
    match spec_vlq(s.skip(dl + 1)) {
        VlqOutcome::Short => EventOutcome::Failure(s.len() as int, ReaderErrorKind::OutOfBounds),
        VlqOutcome::Overlong => EventOutcome::Failure(
            dl + 1,
            ReaderErrorKind::ParseError(ParseError::InvalidVlq),
        ),
        VlqOutcome::Value(len, ll) => {
            let start = dl + 1 + ll;
            if s.len() - start < len {
                EventOutcome::Failure(s.len() as int, ReaderErrorKind::OutOfBounds)
            } else {
                let payload = s.subrange(start, start + len);
                let trimmed = if len > 0 && payload[len - 1] == 0xF7 {
                    payload.drop_last()
                } else {
                    payload
                };
                EventOutcome::Event(
                    TrackEventModel {
                        delta_time: delta,
                        event: TrackMessageModel::SystemExclusive(trimmed),
                    },
                    start + len,
                    rs,
                )
            }
        },
    }
}

/// The meta arm of [`spec_event`]: the type byte sits just past the
/// `0xFF` byte at `dl`, then a length quantity and the payload.
pub open spec fn spec_event_meta(s: Seq<u8>, delta: u32, dl: int, rs: Option<StatusByte>) -> EventOutcome {
    if s.len() <= dl + 1 {
        EventOutcome::Failure(s.len() as int, ReaderErrorKind::OutOfBounds)
    } else {
        let t = s[dl + 1];
        match spec_vlq(s.skip(dl + 2)) {
            VlqOutcome::Short => EventOutcome::Failure(
                s.len() as int,
                ReaderErrorKind::OutOfBounds,
            ),
            VlqOutcome::Overlong => EventOutcome::Failure(
                dl + 2,
                ReaderErrorKind::ParseError(ParseError::InvalidVlq),
            ),
            VlqOutcome::Value(len, ll) => {
                let start = dl + 2 + ll;
                if s.len() - start < len {
                    EventOutcome::Failure(s.len() as int, ReaderErrorKind::OutOfBounds)
                } else {
                    let payload = s.subrange(start, start + len);
                    match spec_meta(t, payload) {
                        Ok(m) => EventOutcome::Event(
                            TrackEventModel {
                                delta_time: delta,
                                event: TrackMessageModel::Meta(m),
                            },
                            start + len,
                            rs,
                        ),
                        Err(e) => EventOutcome::Failure(
                            start,
                            ReaderErrorKind::ParseError(ParseError::Smpte(e)),
                        ),
                    }
                }
            },
        }
    }
}

/// The channel-voice arm of [`spec_event`]: the body starts at `body`,
/// and `st` is the status in force — freshly read, or the running one.
pub open spec fn spec_event_voice(
    s: Seq<u8>,
    delta: u32,
    body: int,
    st: StatusByte,
    rs: Option<StatusByte>,
) -> EventOutcome {
    match spec_voice(st.spec_byte(), s.skip(body)) {
        VoiceOutcome::Event(ev, n) => EventOutcome::Event(
            TrackEventModel {
                delta_time: delta,
                event: TrackMessageModel::ChannelVoice(
                    ChannelVoiceMessage { status: st, event: ev },
                ),
            },
            body + n,
            Some(st),
        ),
        VoiceOutcome::Invalid(i, e) => EventOutcome::Failure(
            body + i,
            ReaderErrorKind::ParseError(e),
        ),
        VoiceOutcome::Short => EventOutcome::Failure(
            s.len() as int,
            ReaderErrorKind::OutOfBounds,
        ),
    }
}

/// Read one track event from `bytes` at `pos`, updating the running
/// status cell.
///
/// On success the returned position sits just past the event, at least
/// one byte on, and the cell holds what [`spec_event`] says; on failure
/// the error's position is absolute and the cell is left in an
/// unspecified state, as the whole parse is being abandoned.
pub fn read_track_event(bytes: &[u8], pos: usize, running: &mut Option<StatusByte>) -> (r:
    ReadResult<(TrackEvent, usize)>)
    requires
        pos <= bytes@.len(),
    ensures
        match spec_event(bytes@.skip(pos as int), *old(running)) {
            EventOutcome::Event(m, n, rs2) => {
                &&& r matches Ok((ev, end)) && ev@ == m && end == pos + n
                &&& *final(running) == rs2
                &&& pos < pos + n <= bytes@.len()
            },
            EventOutcome::Failure(p, k) => r == Err::<(TrackEvent, usize), _>(
                ReaderError { position: (pos + p) as usize, kind: k },
            ),
        },
{
    let ghost s = bytes@.skip(pos as int);
    let (delta, after_delta) = match decode_vlq(bytes, pos) {
        Some(v) => v,
        None => {
            return Err(classify_vlq_failure(bytes, pos));
        },
    };
    let ghost dl = after_delta - pos;
    if after_delta >= bytes.len() {
        assert(s.len() <= dl);
        return Err(ReaderError::oob(bytes.len()));
    }
    assert(s[dl] == bytes@[after_delta as int]);
    let b = bytes[after_delta];
    if b == 0xF0 {
        read_sysex_tail(bytes, pos, after_delta, delta, running)
    } else if b == 0xFF {
        read_meta_tail(bytes, pos, after_delta, delta, running)
    } else if b >= 0x80 {
        if b / 16 == 0xF {
            return Err(ReaderError::parse_error(
                after_delta,
                ParseError::InvalidStatusByte(b),
            ));
        }
        let st = StatusByte::new_unchecked(b);
        *running = Some(st);
        proof {
            assert(s.skip(dl + 1) =~= bytes@.skip(after_delta + 1));
        }
        match ChannelVoiceMessage::read(st, bytes, after_delta + 1) {
            Ok((msg, end)) => Ok((
                TrackEvent::new(delta, TrackMessage::ChannelVoice(msg)),
                end,
            )),
            Err(e) => Err(e),
        }
    } else {
        let st = match *running {
            Some(st) => st,
            None => {
                return Err(ReaderError::parse_error(
                    after_delta,
                    ParseError::NoRunningStatus,
                ));
            },
        };
        proof {
            assert(s.skip(dl) =~= bytes@.skip(after_delta as int));
        }
        match ChannelVoiceMessage::read(st, bytes, after_delta) {
            Ok((msg, end)) => Ok((
                TrackEvent::new(delta, TrackMessage::ChannelVoice(msg)),
                end,
            )),
            Err(e) => Err(e),
        }
    }
}

/// Name the failure a quantity at `pos` suffered: out of bounds at the
/// buffer's end when the bytes ran out, malformed at its own start when
/// four continuation bytes passed.
fn classify_vlq_failure(bytes: &[u8], pos: usize) -> (r: ReaderError)
    requires
        pos <= bytes@.len(),
        !(spec_vlq(bytes@.skip(pos as int)) is Value),
    ensures
        spec_vlq(bytes@.skip(pos as int)) == VlqOutcome::Short ==> r == (ReaderError {
            position: bytes@.len() as usize,
            kind: ReaderErrorKind::OutOfBounds,
        }),
        spec_vlq(bytes@.skip(pos as int)) == VlqOutcome::Overlong ==> r == (ReaderError {
            position: pos,
            kind: ReaderErrorKind::ParseError(ParseError::InvalidVlq),
        }),
{
    // a quantity is cut short exactly when the buffer ends within its
    // first four bytes, all of them continuation bytes
    let mut i: usize = pos;
    loop
        invariant
            pos <= i <= bytes@.len(),
            i - pos <= 4,
            !(spec_vlq(bytes@.skip(pos as int)) is Value),
            spec_vlq_probe(bytes@.skip(pos as int), (i - pos) as int),
        decreases bytes@.len() - i,
    {
        if i - pos == 4 {
            proof {
                lemma_vlq_probe_overlong(bytes@.skip(pos as int));
            }
            return ReaderError::parse_error(pos, ParseError::InvalidVlq);
        }
        if i == bytes.len() {
            proof {
                lemma_vlq_probe_short(bytes@.skip(pos as int), (i - pos) as int);
            }
            return ReaderError::oob(bytes.len());
        }
        let b = bytes[i];
        assert(bytes@.skip(pos as int)[i - pos] == b);
        if b < 0x80 {
            proof {
                lemma_vlq_probe_value(bytes@.skip(pos as int), (i - pos) as int);
            }
            assert(false);
        }
        i += 1;
    }
}

/// The first `k` bytes of `s` are continuation bytes.
spec fn spec_vlq_probe(s: Seq<u8>, k: int) -> bool {
    forall|j: int| 0 <= j < k ==> k <= s.len() && #[trigger] s[j] >= 0x80
}

/// With `k` continuation bytes ahead and the buffer ending at `k`, the
/// quantity is cut short.
proof fn lemma_vlq_probe_short(s: Seq<u8>, k: int)
    requires
        0 <= k < 4,
        k == s.len(),
        spec_vlq_probe(s, k),
    ensures
        spec_vlq(s) == VlqOutcome::Short,
{
    lemma_vlq_from_probe(s, 0, 0, k);
}

/// With four continuation bytes ahead, the quantity is overlong.
proof fn lemma_vlq_probe_overlong(s: Seq<u8>)
    requires
        spec_vlq_probe(s, 4),
    ensures
        spec_vlq(s) == VlqOutcome::Overlong,
{
    lemma_vlq_from_probe(s, 0, 0, 4);
}

/// With `k` continuation bytes ahead and a terminator after them, the
/// quantity has a value.
proof fn lemma_vlq_probe_value(s: Seq<u8>, k: int)
    requires
        0 <= k < 4,
        k < s.len(),
        spec_vlq_probe(s, k),
        s[k] < 0x80,
    ensures
        spec_vlq(s) is Value,
{
    lemma_vlq_from_probe(s, 0, 0, k);
}

/// Walking `k` continuation bytes from `idx` keeps the outcome of
/// [`crate::vlq::spec_vlq_from`] pending.
proof fn lemma_vlq_from_probe(s: Seq<u8>, idx: int, acc: u32, k: int)
    requires
        0 <= idx,
        idx <= k <= 4,
        forall|j: int| idx <= j < k ==> k <= s.len() && #[trigger] s[j] >= 0x80,
    ensures
        k == s.len() && k < 4 ==> crate::vlq::spec_vlq_from(s, idx, acc)
            == VlqOutcome::Short,
        k == 4 ==> crate::vlq::spec_vlq_from(s, idx, acc) == VlqOutcome::Overlong,
        k < 4 && k < s.len() && s[k] < 0x80 ==> crate::vlq::spec_vlq_from(s, idx, acc)
            is Value,
    decreases k - idx,
{
    if idx < k {
        let b = s[idx];
        let acc2 = (acc * 0x80 + (b % 0x80)) as u32;
        lemma_vlq_from_probe(s, idx + 1, acc2, k);
    }
}

/// A terminated quantity depends only on the bytes it spans: a sequence
/// agreeing on those bytes yields the same value and length.
proof fn lemma_vlq_agree(s1: Seq<u8>, s2: Seq<u8>, idx: int, acc: u32, v: u32, l: usize)
    requires
        0 <= idx,
        crate::vlq::spec_vlq_from(s1, idx, acc) == VlqOutcome::Value(v, l),
        forall|j: int| idx <= j < l ==> j < s2.len() && s2[j] == s1[j],
    ensures
        crate::vlq::spec_vlq_from(s2, idx, acc) == VlqOutcome::Value(v, l),
        idx < l,
    decreases 4 - idx,
{
    let b = s1[idx];
    if b >= 0x80 {
        let acc2 = (acc * 0x80 + (b % 0x80)) as u32;
        lemma_vlq_agree(s1, s2, idx + 1, acc2, v, l);
        assert(s2[idx] == b);
    } else {
        assert(s2[idx] == b);
    }
}

/// Running status saves exactly one byte.
///
/// Take an encoded event in `full`: a delta time spanning `dl` bytes, an
/// explicit channel-voice status byte, and the message body, parsing to
/// the event `m` over `n` bytes and leaving `s` as the running status.
/// Omitting the status byte parses to the very same event under running
/// status `s`, consuming one byte fewer.
pub proof fn lemma_running_status(
    full: Seq<u8>,
    omitted: Seq<u8>,
    delta: u32,
    dl: usize,
    s: StatusByte,
    rs0: Option<StatusByte>,
    m: TrackEventModel,
    n: int,
    rs1: Option<StatusByte>,
)
    requires
        spec_vlq(full) == VlqOutcome::Value(delta, dl),
        dl + 1 < full.len(),
        full[dl as int] == s.spec_byte(),
        0x80 <= s.spec_byte() < 0xF0,
        full[dl + 1] < 0x80,
        omitted == full.subrange(0, dl as int) + full.skip(dl + 1),
        spec_event(full, rs0) == EventOutcome::Event(m, n, rs1),
    ensures
        rs1 == Some(s),
        spec_event(omitted, Some(s)) == EventOutcome::Event(m, n - 1, Some(s)),
{
    let b = s.spec_byte();
    assert(b != 0xF0 && b != 0xFF);
    assert(b / 16 != 0xF) by {
        assert(b < 0xF0);
    }
    // the same delta is read from the omitted form: the status byte sits
    // beyond the quantity's span
    lemma_vlq_agree(full, omitted, 0, 0, delta, dl);
    assert(forall|j: int| 0 <= j < dl ==> omitted[j] == full[j]);
    assert(omitted.len() == full.len() - 1);
    assert(omitted[dl as int] == full[dl + 1]);
    assert(omitted[dl as int] < 0x80);
    // both forms decode the same voice body
    assert(omitted.skip(dl as int) =~= full.skip(dl + 1));
    match spec_voice(b, full.skip(dl + 1)) {
        VoiceOutcome::Event(ev, k) => {
            assert(spec_event(full, rs0) == EventOutcome::Event(
                TrackEventModel {
                    delta_time: delta,
                    event: TrackMessageModel::ChannelVoice(
                        ChannelVoiceMessage { status: s, event: ev },
                    ),
                },
                dl + 1 + k,
                Some(s),
            ));
            assert(spec_event(omitted, Some(s)) == EventOutcome::Event(m, dl + k, Some(s)));
        },
        VoiceOutcome::Invalid(..) => {
            assert(false);
        },
        VoiceOutcome::Short => {
            assert(false);
        },
    }
}

/// The system exclusive tail of the reader: `after_delta` points at the
/// `0xF0` byte.
fn read_sysex_tail(
    bytes: &[u8],
    pos: usize,
    after_delta: usize,
    delta: u32,
    running: &mut Option<StatusByte>,
) -> (r: ReadResult<(TrackEvent, usize)>)
    requires
        pos <= after_delta < bytes@.len(),
        spec_vlq(bytes@.skip(pos as int)) == VlqOutcome::Value(
            delta,
            (after_delta - pos) as usize,
        ),
        bytes@[after_delta as int] == 0xF0,
    ensures
        match spec_event(bytes@.skip(pos as int), *old(running)) {
            EventOutcome::Event(m, n, rs2) => {
                &&& r matches Ok((ev, end)) && ev@ == m && end == pos + n
                &&& *final(running) == rs2
                &&& pos < pos + n <= bytes@.len()
            },
            EventOutcome::Failure(p, k) => r == Err::<(TrackEvent, usize), _>(
                ReaderError { position: (pos + p) as usize, kind: k },
            ),
        },
{
    let ghost s = bytes@.skip(pos as int);
    let ghost dl = after_delta - pos;
    let blen = bytes.len();
    proof {
        assert(s[dl] == 0xF0);
        assert(s.skip(dl + 1) =~= bytes@.skip(after_delta + 1));
    }
    let (len, after_len) = match decode_vlq(bytes, after_delta + 1) {
        Some(v) => v,
        None => {
            return Err(classify_vlq_failure(bytes, after_delta + 1));
        },
    };
    if (bytes.len() - after_len) < len as usize {
        return Err(ReaderError::oob(bytes.len()));
    }
    let start = after_len;
    let end = after_len + len as usize;
    let mut payload: Vec<u8> = Vec::new();
    payload.extend_from_slice(&bytes[start..end]);
    if payload.len() > 0 {
        let last = payload[payload.len() - 1];
        if last == 0xF7 {
            // the terminator is framing, not data
            payload.truncate(payload.len() - 1);
        }
    }
    proof {
        let start_rel = dl + 1 + (after_len - (after_delta + 1));
        assert(bytes@.subrange(start as int, end as int) =~= s.subrange(
            start_rel,
            start_rel + len,
        ));
        let p = s.subrange(start_rel, start_rel + len);
        if len > 0 && p[len - 1] == 0xF7 {
            assert(payload@ =~= p.drop_last());
        } else {
            assert(payload@ =~= p);
        }
    }
    Ok((
        TrackEvent::new(delta, TrackMessage::SystemExclusive(SystemExclusiveMessage::new(payload))),
        end,
    ))
}

/// The meta tail of the reader: `after_delta` points at the `0xFF` byte.
fn read_meta_tail(
    bytes: &[u8],
    pos: usize,
    after_delta: usize,
    delta: u32,
    running: &mut Option<StatusByte>,
) -> (r: ReadResult<(TrackEvent, usize)>)
    requires
        pos <= after_delta < bytes@.len(),
        spec_vlq(bytes@.skip(pos as int)) == VlqOutcome::Value(
            delta,
            (after_delta - pos) as usize,
        ),
        bytes@[after_delta as int] == 0xFF,
    ensures
        match spec_event(bytes@.skip(pos as int), *old(running)) {
            EventOutcome::Event(m, n, rs2) => {
                &&& r matches Ok((ev, end)) && ev@ == m && end == pos + n
                &&& *final(running) == rs2
                &&& pos < pos + n <= bytes@.len()
            },
            EventOutcome::Failure(p, k) => r == Err::<(TrackEvent, usize), _>(
                ReaderError { position: (pos + p) as usize, kind: k },
            ),
        },
{
    let ghost s = bytes@.skip(pos as int);
    let ghost dl = after_delta - pos;
    let blen = bytes.len();
    proof {
        assert(s[dl] == 0xFF);
    }
    if after_delta + 1 >= blen {
        assert(s.len() <= dl + 1);
        return Err(ReaderError::oob(bytes.len()));
    }
    let t = bytes[after_delta + 1];
    proof {
        assert(s[dl + 1] == t);
        assert(s.skip(dl + 2) =~= bytes@.skip(after_delta + 2));
    }
    let (len, after_len) = match decode_vlq(bytes, after_delta + 2) {
        Some(v) => v,
        None => {
            return Err(classify_vlq_failure(bytes, after_delta + 2));
        },
    };
    if (bytes.len() - after_len) < len as usize {
        return Err(ReaderError::oob(bytes.len()));
    }
    let start = after_len;
    let end = after_len + len as usize;
    let mut payload: Vec<u8> = Vec::new();
    payload.extend_from_slice(&bytes[start..end]);
    proof {
        let start_rel = dl + 2 + (after_len - (after_delta + 2));
        assert(bytes@.subrange(start as int, end as int) =~= s.subrange(
            start_rel,
            start_rel + len,
        ));
        assert(payload@ =~= s.subrange(start_rel, start_rel + len));
    }
    match read_meta(t, payload) {
        Ok(m) => Ok((TrackEvent::new(delta, TrackMessage::Meta(m)), end)),
        Err(e) => Err(ReaderError::parse_error(start, ParseError::Smpte(e))),
    }
}

} // verus!
