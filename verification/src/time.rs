//! Events wrapped with a time: accumulated ticks, or absolute
//! microseconds.

use vstd::prelude::*;

verus! {

/// A wrapper around some event with the tick count accumulated since the
/// start of its track.
#[derive(Clone, Debug, PartialEq, Eq)]
pub struct Ticked<T> {
    /// In ticks since the start of the track.
    pub accumulated_ticks: u32,
    /// The wrapped event.
    pub event: T,
}

/// The spec-level model of a [`Ticked`] event.
pub struct TickedModel<M> {
    /// The accumulated tick count.
    pub accumulated_ticks: u32,
    /// The model of the event.
    pub event: M,
}

impl<T: View> View for Ticked<T> {
    type V = TickedModel<T::V>;

    open spec fn view(&self) -> TickedModel<T::V> {
        TickedModel { accumulated_ticks: self.accumulated_ticks, event: self.event@ }
    }
}

impl<T: View> Ticked<T> {
    /// Create a new timed event based on *accumulated* ticks.
    pub fn new(accumulated_ticks: u32, event: T) -> (r: Self)
        ensures
            r@ == (TickedModel { accumulated_ticks, event: event@ }),
    {
        Ticked { accumulated_ticks, event }
    }

    /// Returns the accumulated ticks since the beginning of the track.
    pub fn accumulated_ticks(&self) -> (r: u32)
        ensures
            r == self@.accumulated_ticks,
    {
        self.accumulated_ticks
    }

    /// Returns the timed event.
    pub fn event(&self) -> (r: &T)
        ensures
            r@ == self@.event,
    {
        &self.event
    }

    /// Take the event out of the wrapper.
    pub fn into_event(self) -> (r: T)
        ensures
            r@ == self@.event,
    {
        self.event
    }
}

/// A wrapper around some event with an absolute timestamp in
/// microseconds.
///
/// This differs from [`Ticked`], whose tick count only becomes a time
/// once a timing and a tempo are fixed.
#[derive(Clone, Debug, PartialEq, Eq)]
pub struct Timed<T> {
    /// Microseconds.
    pub timestamp: u64,
    /// The event that should happen at the timestamp.
    pub event: T,
}

/// The spec-level model of a [`Timed`] event.
pub struct TimedModel<M> {
    /// The timestamp, in microseconds.
    pub timestamp: u64,
    /// The model of the event.
    pub event: M,
}

impl<T: View> View for Timed<T> {
    type V = TimedModel<T::V>;

    open spec fn view(&self) -> TimedModel<T::V> {
        TimedModel { timestamp: self.timestamp, event: self.event@ }
    }
}

impl<T: View> Timed<T> {
    /// Create a command to do something at a time, in microseconds.
    pub fn new(timestamp: u64, event: T) -> (r: Self)
        ensures
            r@ == (TimedModel { timestamp, event: event@ }),
    {
        Timed { timestamp, event }
    }
}

} // verus!
