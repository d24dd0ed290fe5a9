//! The SMPTE offset meta event: an absolute start time for a track in
//! SMPTE time code.
//!
//! The five payload bytes carry a frame rate, hour, minute, second, frame
//! and subframe.  The microsecond value of an offset is computed with the
//! exact rational frame rate — 30000/1001 for the drop-frame rate, never
//! the nominal 30.

use vstd::prelude::*;

use crate::error::SmpteError;
use crate::timing::SmpteFps;

verus! {

/// A track's starting position in SMPTE time code.
#[derive(Clone, Copy, Debug, PartialEq, Eq, Structural)]
pub struct SmpteOffset {
    /// The frame rate of this offset.  When the file itself is SMPTE-timed
    /// this should match the file's rate; the file's rate wins when they
    /// disagree.
    pub fps: SmpteFps,
    /// Hour component of the time code (0-23).
    pub hour: u8,
    /// Minute component of the time code (0-59).
    pub minute: u8,
    /// Second component of the time code (0-59).
    pub second: u8,
    /// Frame number within the current second.  Not checked against the
    /// frame rate's own maximum.
    pub frame: u8,
    /// Subframe component (0-99); each unit is 1/100 of a frame.
    pub subframe: u8,
}

/// The whole seconds of an offset, in microseconds.
pub open spec fn offset_base_micros(o: SmpteOffset) -> int {
    (o.hour * 3600 + o.minute * 60 + o.second) * 1_000_000
}

/// The sub-second part of an offset under a given rate, as a fraction of
/// that rate's numerator: frames and hundredths of a frame, scaled by the
/// rate's denominator.
pub open spec fn offset_frame_numer(o: SmpteOffset, fps: SmpteFps) -> int {
    (o.frame * 1_000_000 + o.subframe * 10_000) * fps.spec_denom()
}

/// The microsecond value of an offset under a given rate, as a numerator
/// over [`SmpteFps::spec_numer`] of that rate:
/// `(hour·3600 + minute·60 + second)·1e6 + frame·1e6/fps + subframe·1e4/fps`.
pub open spec fn offset_micros_numer(o: SmpteOffset, fps: SmpteFps) -> int {
    offset_base_micros(o) * fps.spec_numer() + offset_frame_numer(o, fps)
}

/// What parsing a five-byte SMPTE offset payload yields.
///
/// Bits 5-6 of the first byte select the rate, its low five bits the hour;
/// then minute, second, frame and subframe bytes follow.  Fields are
/// checked in order — rate, hour, minute, second, subframe — and the first
/// violation is the one reported.  The frame byte is not range-checked.
pub open spec fn spec_parse_offset(data: Seq<u8>) -> Result<SmpteOffset, SmpteError> {
    if data.len() != 5 {
        Err(SmpteError::Length(data.len() as usize))
    } else {
        let tag = data[0] / 32;
        let fps: Option<SmpteFps> = if tag == 0 {
            Some(SmpteFps::TwentyFour)
        } else if tag == 1 {
            Some(SmpteFps::TwentyFive)
        } else if tag == 2 {
            Some(SmpteFps::TwentyNine)
        } else if tag == 3 {
            Some(SmpteFps::Thirty)
        } else {
            None
        };
        let hour = data[0] % 32;
        if fps is None {
            Err(SmpteError::TrackFrame(tag as u8))
        } else if hour > 23 {
            Err(SmpteError::HourOffset(hour as u8))
        } else if data[1] > 59 {
            Err(SmpteError::MinuteOffset(data[1]))
        } else if data[2] > 59 {
            Err(SmpteError::SecondOffset(data[2]))
        } else if data[4] > 99 {
            Err(SmpteError::Subframe(data[4]))
        } else {
            Ok(
                SmpteOffset {
                    fps: fps.unwrap(),
                    hour: hour as u8,
                    minute: data[1],
                    second: data[2],
                    frame: data[3],
                    subframe: data[4],
                },
            )
        }
    }
}

impl SmpteOffset {
    /// Parse an SMPTE offset from a five-byte meta payload.
    ///
    /// Succeeds exactly when the payload holds five bytes, the rate bits
    /// name one of the four rates, and hour, minute, second and subframe
    /// are in range; the first out-of-range field (in that order) names
    /// the error.
    pub fn parse(data: &[u8]) -> (r: Result<Self, SmpteError>)
        ensures
            r == spec_parse_offset(data@),
    {
        if data.len() != 5 {
            return Err(SmpteError::Length(data.len()));
        }
        let frame_type = match data[0] >> 5 {
            0 => SmpteFps::TwentyFour,
            1 => SmpteFps::TwentyFive,
            2 => SmpteFps::TwentyNine,
            3 => SmpteFps::Thirty,
            v => {
                proof {
                    let b0 = data@[0];
                    assert(b0 >> 5 == b0 / 32) by (bit_vector);
                }
                return Err(SmpteError::TrackFrame(v));
            },
        };
        proof {
            let b0 = data@[0];
            assert(b0 >> 5 == b0 / 32) by (bit_vector);
            assert(b0 & 0b0001_1111 == b0 % 32) by (bit_vector);
        }
        let hour = data[0] & 0b0001_1111;
        if hour > 23 {
            return Err(SmpteError::HourOffset(hour));
        }
        let minute = data[1];
        if minute > 59 {
            return Err(SmpteError::MinuteOffset(minute));
        }
        let second = data[2];
        if second > 59 {
            return Err(SmpteError::SecondOffset(second));
        }
        let frame = data[3];
        let subframe = data[4];
        if subframe > 99 {
            return Err(SmpteError::Subframe(subframe));
        }
        Ok(SmpteOffset { fps: frame_type, hour, minute, second, frame, subframe })
    }

    /// Calculate the offset in whole microseconds using a different frame
    /// rate.
    ///
    /// This is used when the file's SMPTE timing carries a different rate
    /// than the offset itself: the file's rate overrides the offset's.
    /// The result is the exact rational value rounded down.
    pub fn as_micros_with_override(&self, fps: SmpteFps) -> (r: u64)
        ensures
            r == offset_micros_numer(*self, fps) / fps.spec_numer(),
            r == offset_base_micros(*self) + offset_frame_numer(*self, fps)
                / fps.spec_numer(),
    {
        let base: u64 = ((self.hour as u64) * 3600 + (self.minute as u64) * 60
            + (self.second as u64)) * 1_000_000;
        let sub_second: u64 = (self.frame as u64) * 1_000_000 + (self.subframe as u64) * 10_000;
        let den: u64 = fps.denom() as u64;
        let num: u64 = fps.numer() as u64;
        proof {
            assert(sub_second * den <= 257_550_000 * 1001) by (nonlinear_arith)
                requires
                    sub_second <= 257_550_000,
                    den <= 1001,
            ;
        }
        let frame_part: u64 = sub_second * den;
        proof {
            assert(frame_part / num <= frame_part) by (nonlinear_arith)
                requires
                    num >= 1,
            ;
        }
        let r = base + frame_part / num;
        proof {
            let n = fps.spec_numer();
            vstd::arithmetic::div_mod::lemma_hoist_over_denominator(
                offset_frame_numer(*self, fps),
                offset_base_micros(*self),
                n as nat,
            );
            assert(offset_frame_numer(*self, fps) / n + offset_base_micros(*self)
                == (offset_frame_numer(*self, fps) + offset_base_micros(*self) * n) / n);
        }
        r
    }

    /// Convert this SMPTE offset to whole microseconds using its own frame
    /// rate.
    pub fn as_micros(&self) -> (r: u64)
        ensures
            r == offset_micros_numer(*self, self.fps) / self.fps.spec_numer(),
            r == offset_base_micros(*self) + offset_frame_numer(*self, self.fps)
                / self.fps.spec_numer(),
    {
        self.as_micros_with_override(self.fps)
    }
}

} // verus!
