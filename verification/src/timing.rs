//! The header timing of a MIDI file: ticks per quarter-note, or SMPTE
//! frames per second with ticks per frame.

use vstd::prelude::*;

use crate::bytes::DataByte;
use crate::error::{ParseError, SmpteError};

verus! {

/// The possible frame rates for SMPTE-timed MIDI tracks and files.
///
/// The MIDI specification defines exactly four: 24 fps (film), 25 fps
/// (PAL), 29.97 fps (NTSC colour, "drop frame", exactly 30000/1001) and
/// 30 fps (NTSC black and white).
#[derive(Clone, Copy, Debug, PartialEq, Eq, Structural)]
pub enum SmpteFps {
    /// 24 frames per second.
    TwentyFour,
    /// 25 frames per second.
    TwentyFive,
    /// 29.97 frames per second, exactly 30000/1001 — the drop-frame rate.
    TwentyNine,
    /// 30 frames per second.
    Thirty,
}

impl SmpteFps {
    /// The numerator of the exact frame rate, for contracts: frames per
    /// second is `spec_numer() / spec_denom()`.
    pub open spec fn spec_numer(&self) -> int {
        match *self {
            SmpteFps::TwentyFour => 24,
            SmpteFps::TwentyFive => 25,
            SmpteFps::TwentyNine => 30000,
            SmpteFps::Thirty => 30,
        }
    }

    /// The denominator of the exact frame rate, for contracts.
    pub open spec fn spec_denom(&self) -> int {
        match *self {
            SmpteFps::TwentyNine => 1001,
            _ => 1,
        }
    }

    /// The nominal rate used for rate-divisor purposes, for contracts:
    /// the drop-frame rate counts as 30 here.
    pub open spec fn spec_division(&self) -> u8 {
        match *self {
            SmpteFps::TwentyFour => 24,
            SmpteFps::TwentyFive => 25,
            SmpteFps::TwentyNine => 30,
            SmpteFps::Thirty => 30,
        }
    }

    /// Get the nominal frame rate as an integer division value.
    ///
    /// The drop-frame 29.97 rate returns 30 here: MIDI uses the nominal
    /// rate for division calculations, never the exact rational one.
    pub fn as_division(&self) -> (r: u8)
        ensures
            r == self.spec_division(),
    {
        match *self {
            SmpteFps::TwentyFour => 24,
            SmpteFps::TwentyFive => 25,
            SmpteFps::TwentyNine => 30,
            SmpteFps::Thirty => 30,
        }
    }

    /// The numerator of the exact frame rate.
    pub fn numer(&self) -> (r: u32)
        ensures
            r == self.spec_numer(),
    {
        match *self {
            SmpteFps::TwentyFour => 24,
            SmpteFps::TwentyFive => 25,
            SmpteFps::TwentyNine => 30000,
            SmpteFps::Thirty => 30,
        }
    }

    /// The denominator of the exact frame rate.
    pub fn denom(&self) -> (r: u32)
        ensures
            r == self.spec_denom(),
    {
        match *self {
            SmpteFps::TwentyNine => 1001,
            _ => 1,
        }
    }
}

/// The two's-complement reading of a byte, for contracts.
pub open spec fn spec_signed(b: u8) -> i8 {
    if b >= 0x80 {
        (b - 256) as i8
    } else {
        b as i8
    }
}

/// Read a byte as a signed two's-complement number.
pub fn as_signed(b: u8) -> (r: i8)
    ensures
        r == spec_signed(b),
{
    if b >= 0x80 {
        ((b as i16) - 256) as i8
    } else {
        b as i8
    }
}

/// A representation of the ticks-per-quarter-note timing for a MIDI file,
/// as the two big-endian header bytes.
#[derive(Clone, Copy, Debug, PartialEq, Eq, Structural)]
pub struct TicksPerQuarterNote {
    /// The first (most significant) timing byte of the header; its top bit
    /// is ignored.
    pub hi: u8,
    /// The second (least significant) timing byte of the header.
    pub lo: u8,
}

impl TicksPerQuarterNote {
    /// The tick rate the two bytes denote, for contracts: the big-endian
    /// value with its top bit cleared.
    pub open spec fn spec_ticks(&self) -> u16 {
        (((self.hi % 0x80) * 0x100) + self.lo) as u16
    }

    /// Returns the ticks per quarter note for the file.
    pub fn ticks_per_quarter_note(&self) -> (r: u16)
        ensures
            r == self.spec_ticks(),
            r < 0x8000,
    {
        let hi = self.hi % 0x80;
        (hi as u16) * 0x100 + (self.lo as u16)
    }
}

/// A representation of the SMPTE timing for a MIDI file.
#[derive(Clone, Copy, Debug, PartialEq, Eq, Structural)]
pub struct SmpteHeader {
    /// The frame rate.
    pub fps: SmpteFps,
    /// How many ticks subdivide one frame.
    pub ticks_per_frame: DataByte,
}

impl SmpteHeader {
    /// Parse the two timing bytes of a header whose first byte has its top
    /// bit set.
    ///
    /// The first byte, read as a signed number, must be one of -24, -25,
    /// -29 or -30; the second must be a data byte.
    pub fn new(bytes: [u8; 2]) -> (r: Result<Self, ParseError>)
        ensures
            r == SmpteHeader::spec_new(bytes@[0], bytes@[1]),
    {
        let byte = as_signed(bytes[0]);
        let frame = match byte {
            -24 => SmpteFps::TwentyFour,
            -25 => SmpteFps::TwentyFive,
            -29 => SmpteFps::TwentyNine,
            -30 => SmpteFps::Thirty,
            _ => {
                return Err(ParseError::Smpte(SmpteError::HeaderFrameTime(byte)));
            },
        };
        let ticks_per_frame = match DataByte::new(bytes[1]) {
            Ok(d) => d,
            Err(e) => {
                return Err(e);
            },
        };
        Ok(SmpteHeader { fps: frame, ticks_per_frame })
    }

    /// What [`SmpteHeader::new`] returns for each pair of bytes.
    pub open spec fn spec_new(b0: u8, b1: u8) -> Result<SmpteHeader, ParseError> {
        let fps: Option<SmpteFps> = if b0 == 0xE8 {
            Some(SmpteFps::TwentyFour)
        } else if b0 == 0xE7 {
            Some(SmpteFps::TwentyFive)
        } else if b0 == 0xE3 {
            Some(SmpteFps::TwentyNine)
        } else if b0 == 0xE2 {
            Some(SmpteFps::Thirty)
        } else {
            None
        };
        match fps {
            Some(fps) => {
                if b1 < 0x80 {
                    Ok(SmpteHeader { fps, ticks_per_frame: DataByte(b1) })
                } else {
                    Err(ParseError::InvalidDataByte(b1))
                }
            },
            None => Err(ParseError::Smpte(SmpteError::HeaderFrameTime(spec_signed(b0)))),
        }
    }

    /// Returns the frames per second.
    pub fn fps(&self) -> (r: SmpteFps)
        ensures
            r == self.fps,
    {
        self.fps
    }

    /// Returns the ticks per frame.
    pub fn ticks_per_frame(&self) -> (r: u8)
        ensures
            r == self.ticks_per_frame.spec_value(),
    {
        self.ticks_per_frame.value()
    }
}

/// The header timing type: how the delta-ticks of every track are to be
/// read.  Exactly one instance exists per file.
#[derive(Clone, Copy, Debug, PartialEq, Eq, Structural)]
pub enum Timing {
    /// The file's delta times are fractions of a quarter note.
    TicksPerQuarterNote(TicksPerQuarterNote),
    /// The file's delta times are defined by SMPTE time code.
    Smpte(SmpteHeader),
}

impl Timing {
    /// The tick rate per quarter note defines what a "quarter note" means.
    ///
    /// The leading bit of the `u16` is disregarded, so 1-32767.
    pub fn new_ticks_per_quarter_note(tpqn: u16) -> (r: Self)
        ensures
            r matches Timing::TicksPerQuarterNote(t) && t.spec_ticks() == tpqn % 0x8000,
    {
        let msb = (tpqn / 0x100) as u8;
        let lsb = (tpqn % 0x100) as u8;
        let t = TicksPerQuarterNote { hi: msb, lo: lsb };
        proof {
            assert(t.spec_ticks() == tpqn % 0x8000) by (nonlinear_arith)
                requires
                    msb == tpqn / 0x100,
                    lsb == tpqn % 0x100,
                    t.hi == msb,
                    t.lo == lsb,
            ;
        }
        Timing::TicksPerQuarterNote(t)
    }

    /// Define the timing in terms of fps and ticks per frame.
    pub fn new_smpte(fps: SmpteFps, ticks_per_frame: DataByte) -> (r: Self)
        ensures
            r == Timing::Smpte(SmpteHeader { fps, ticks_per_frame }),
    {
        Timing::Smpte(SmpteHeader { fps, ticks_per_frame })
    }

    /// What reading the two timing bytes of a header yields: a tick rate
    /// when the top bit of the first byte is clear, an SMPTE rate
    /// otherwise.
    pub open spec fn spec_read(b0: u8, b1: u8) -> Result<Timing, ParseError> {
        if b0 < 0x80 {
            Ok(Timing::TicksPerQuarterNote(TicksPerQuarterNote { hi: b0, lo: b1 }))
        } else {
            match SmpteHeader::spec_new(b0, b1) {
                Ok(h) => Ok(Timing::Smpte(h)),
                Err(e) => Err(e),
            }
        }
    }

    /// Read the two timing bytes of a header chunk.
    pub fn read(bytes: [u8; 2]) -> (r: Result<Self, ParseError>)
        ensures
            r == Timing::spec_read(bytes@[0], bytes@[1]),
    {
        if bytes[0] < 0x80 {
            Ok(Timing::TicksPerQuarterNote(TicksPerQuarterNote { hi: bytes[0], lo: bytes[1] }))
        } else {
            match SmpteHeader::new(bytes) {
                Ok(h) => Ok(Timing::Smpte(h)),
                Err(e) => Err(e),
            }
        }
    }

    /// Returns `Some` if the midi timing is defined as ticks per quarter
    /// note.
    pub fn ticks_per_quarter_note(&self) -> (r: Option<u16>)
        ensures
            match *self {
                Timing::TicksPerQuarterNote(t) => r == Some(t.spec_ticks()),
                Timing::Smpte(_) => r is None,
            },
    {
        match self {
            Timing::TicksPerQuarterNote(t) => Some(t.ticks_per_quarter_note()),
            Timing::Smpte(_) => None,
        }
    }
}

} // verus!
