//! Track tempo: microseconds per MIDI quarter-note.

use vstd::prelude::*;

verus! {

/// The default tempo when a track declares none: 500,000 microseconds per
/// quarter-note (120 beats per minute).
pub const DEFAULT_TEMPO_MICROS: u32 = 500000;

/// A tempo in microseconds per MIDI quarter-note, as carried by the
/// three-byte tempo meta event.
#[derive(Clone, Copy, Debug, Hash, PartialEq, Eq, Structural)]
pub struct Tempo(pub u32);

/// The value a tempo meta payload denotes: its first three bytes read
/// big-endian, missing bytes read as zero.
pub open spec fn tempo_of_bytes(v: Seq<u8>) -> u32 {
    let b0: u8 = if v.len() > 0 {
        v[0]
    } else {
        0
    };
    let b1: u8 = if v.len() > 1 {
        v[1]
    } else {
        0
    };
    let b2: u8 = if v.len() > 2 {
        v[2]
    } else {
        0
    };
    (b0 * 0x10000 + b1 * 0x100 + b2) as u32
}

impl Tempo {
    /// The microsecond count, for contracts.
    pub open spec fn spec_micros(&self) -> u32 {
        self.0
    }

    /// Interpret a byte slice as a tempo: the first three bytes, big-endian,
    /// with missing bytes read as zero.
    pub fn new_from_bytes(v: &[u8]) -> (r: Self)
        ensures
            r.spec_micros() == tempo_of_bytes(v@),
    {
        let b0: u8 = if v.len() > 0 {
            v[0]
        } else {
            0
        };
        let b1: u8 = if v.len() > 1 {
            v[1]
        } else {
            0
        };
        let b2: u8 = if v.len() > 2 {
            v[2]
        } else {
            0
        };
        Tempo((b0 as u32) * 0x10000 + (b1 as u32) * 0x100 + (b2 as u32))
    }

    /// The count of microseconds per MIDI quarter-note.
    pub fn micros_per_quarter_note(&self) -> (r: u32)
        ensures
            r == self.spec_micros(),
    {
        self.0
    }
}

impl Default for Tempo {
    /// The tempo of a track that declares none.
    fn default() -> (r: Self)
        ensures
            r.spec_micros() == DEFAULT_TEMPO_MICROS,
    {
        Tempo(DEFAULT_TEMPO_MICROS)
    }
}

} // verus!
