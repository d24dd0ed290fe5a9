//! Signed and unsigned microsecond quantities.

use vstd::prelude::*;

verus! {

/// Signed microseconds.
#[derive(Clone, Copy, Debug, Default, PartialEq, Eq, Structural)]
pub struct Micros(pub i64);

impl Micros {
    /// The wrapped count, for contracts.
    pub open spec fn spec_us(&self) -> i64 {
        self.0
    }

    /// Creates a new instance of microseconds.
    pub fn new(microseconds: i64) -> (r: Self)
        ensures
            r.spec_us() == microseconds,
    {
        Micros(microseconds)
    }

    /// Returns the microseconds as an `i64`.
    pub fn us(&self) -> (r: i64)
        ensures
            r == self.spec_us(),
    {
        self.0
    }

    /// Milliseconds to microseconds.
    pub fn from_ms(ms: i64) -> (r: Self)
        requires
            -0x20c49ba5e353f7 <= ms <= 0x20c49ba5e353f7,
        ensures
            r.spec_us() == ms * 1000,
    {
        Micros(ms * 1000)
    }

    /// Returns unsigned microseconds if this count is not negative.
    pub fn to_unsigned(&self) -> (r: Option<UMicros>)
        ensures
            self.spec_us() >= 0 ==> r == Some(UMicros(self.spec_us() as u64)),
            self.spec_us() < 0 ==> r is None,
    {
        if self.0 < 0 {
            return None;
        }
        Some(UMicros(self.0 as u64))
    }

    /// Returns unsigned microseconds as an absolute value.
    pub fn abs_unsigned(&self) -> (r: UMicros)
        ensures
            self.spec_us() >= 0 ==> r.spec_us() == self.spec_us(),
            self.spec_us() < 0 ==> r.spec_us() == -(self.spec_us() as int),
    {
        if self.0 < 0 {
            if self.0 == i64::MIN {
                UMicros(0x8000_0000_0000_0000u64)
            } else {
                UMicros((-self.0) as u64)
            }
        } else {
            UMicros(self.0 as u64)
        }
    }
}

/// Unsigned microseconds.
#[derive(Clone, Copy, Debug, Default, PartialEq, Eq, Structural)]
pub struct UMicros(pub u64);

impl UMicros {
    /// The wrapped count, for contracts.
    pub open spec fn spec_us(&self) -> u64 {
        self.0
    }

    /// Creates a new instance of microseconds.
    pub fn new(microseconds: u64) -> (r: Self)
        ensures
            r.spec_us() == microseconds,
    {
        UMicros(microseconds)
    }

    /// Returns the microseconds as a `u64`.
    pub fn us(&self) -> (r: u64)
        ensures
            r == self.spec_us(),
    {
        self.0
    }

    /// Milliseconds to microseconds.
    pub fn from_ms(ms: u64) -> (r: Self)
        requires
            ms <= 0x418937_4BC6A7EF,
        ensures
            r.spec_us() == ms * 1000,
    {
        UMicros(ms * 1000)
    }

    /// Converts self into signed microseconds, saturating at `i64::MAX`.
    pub fn to_micros(&self) -> (r: Micros)
        ensures
            self.spec_us() <= i64::MAX ==> r.spec_us() == self.spec_us(),
            self.spec_us() > i64::MAX ==> r.spec_us() == i64::MAX,
    {
        if self.0 > 0x7FFF_FFFF_FFFF_FFFFu64 {
            Micros(i64::MAX)
        } else {
            Micros(self.0 as i64)
        }
    }

    /// Returns no time if this count is less than the other.
    pub fn saturating_sub(&self, other: Self) -> (r: UMicros)
        ensures
            self.spec_us() >= other.spec_us() ==> r.spec_us() == self.spec_us()
                - other.spec_us(),
            self.spec_us() < other.spec_us() ==> r.spec_us() == 0,
    {
        if self.0 < other.0 {
            UMicros(0)
        } else {
            UMicros(self.0 - other.0)
        }
    }
}

} // verus!
