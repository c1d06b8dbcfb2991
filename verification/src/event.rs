//! Readiness notifications delivered by the external reactor.

use vstd::prelude::*;

verus! {

/// The set of readiness conditions reported by one reactor notification:
/// whether the socket became readable and whether it became writable.
#[derive(Clone, Copy, PartialEq, Eq, Structural, Debug)]
pub struct EventSet {
    pub readable: bool,
    pub writable: bool,
}

impl EventSet {
    /// An event set with the given two readiness bits.
    pub fn new(readable: bool, writable: bool) -> (r: EventSet)
        ensures
            r.readable == readable,
            r.writable == writable,
    {
        EventSet { readable, writable }
    }

    /// An event set marking both readiness conditions, the interest a
    /// connection registers for.
    pub fn all() -> (r: EventSet)
        ensures
            r.readable,
            r.writable,
    {
        EventSet { readable: true, writable: true }
    }

    /// An event set marking no readiness condition at all.
    pub fn none() -> (r: EventSet)
        ensures
            !r.readable,
            !r.writable,
    {
        EventSet { readable: false, writable: false }
    }

    /// Whether the notification marks the socket readable.
    pub fn is_readable(&self) -> (r: bool)
        ensures
            r == self.readable,
    {
        self.readable
    }

    /// Whether the notification marks the socket writable.
    pub fn is_writable(&self) -> (r: bool)
        ensures
            r == self.writable,
    {
        self.writable
    }
}

} // verus!
