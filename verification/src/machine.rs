//! The short-circuiting continuation algebra.
//!
//! A callback either continues with a replacement state machine and a
//! carried value, or stops, after which the owner tears the connection
//! down.  The combinators chain further steps only while the computation
//! is still continuing: once [`Async::Stop`] appears, every later step is
//! skipped and `Stop` propagates unchanged.

use vstd::prelude::*;

verus! {

/// Outcome of one computation step: continue with a new machine `M` and a
/// carried value `V`, or stop and let the owner destroy the connection.
pub enum Async<M, V> {
    Continue(M, V),
    Stop,
}

impl<M, V> Async<M, V> {
    /// Whether this outcome still continues.
    pub fn is_continue(&self) -> (r: bool)
        ensures
            r == (self matches Async::Continue(_, _)),
    {
        match self {
            Async::Continue(_, _) => true,
            Async::Stop => false,
        }
    }

    /// Transform the continuing machine, keeping the carried value; a
    /// stopped computation stays stopped and `f` is never invoked.
    pub fn map<N, F: FnOnce(M) -> N>(self, f: F) -> (r: Async<N, V>)
        requires
            self matches Async::Continue(m, _) ==> call_requires(f, (m,)),
        ensures
            self matches Async::Stop ==> r matches Async::Stop,
            self matches Async::Continue(m, v) ==> (r matches Async::Continue(n, w)
                && call_ensures(f, (m,), n) && w == v),
    {
        match self {
            Async::Continue(m, v) => Async::Continue(f(m), v),
            Async::Stop => Async::Stop,
        }
    }

    /// Transform the carried value, keeping the machine; a stopped
    /// computation stays stopped and `f` is never invoked.
    pub fn map_result<W, F: FnOnce(V) -> W>(self, f: F) -> (r: Async<M, W>)
        requires
            self matches Async::Continue(_, v) ==> call_requires(f, (v,)),
        ensures
            self matches Async::Stop ==> r matches Async::Stop,
            self matches Async::Continue(m, v) ==> (r matches Async::Continue(n, w)
                && call_ensures(f, (v,), w) && n == m),
    {
        match self {
            Async::Continue(m, v) => Async::Continue(m, f(v)),
            Async::Stop => Async::Stop,
        }
    }

    /// Chain a next, possibly stopping, step on the continuing machine.
    /// On a stopped computation this is a no-op propagating `Stop`: the
    /// step `f` is never invoked, so a single stop short-circuits every
    /// step chained after it.
    pub fn and_then<F: FnOnce(M) -> Async<M, V>>(self, f: F) -> (r: Async<M, V>)
        requires
            self matches Async::Continue(m, _) ==> call_requires(f, (m,)),
        ensures
            self matches Async::Stop ==> r matches Async::Stop,
            self matches Async::Continue(m, _) ==> call_ensures(f, (m,), r),
    {
        match self {
            Async::Continue(m, _) => f(m),
            Async::Stop => Async::Stop,
        }
    }

    /// Convert a continuing machine into a terminal notification: the
    /// terminal callback `f` runs exactly once if the computation still
    /// continues, and not at all if it has already stopped.  The machine
    /// is consumed either way, so a terminal notification can fire at
    /// most once per chain.
    pub fn done<F: FnOnce(M)>(self, f: F)
        requires
            self matches Async::Continue(m, _) ==> call_requires(f, (m,)),
        ensures
            self matches Async::Continue(m, _) ==> call_ensures(f, (m,), ()),
    {
        match self {
            Async::Continue(m, _) => f(m),
            Async::Stop => (),
        }
    }
}

} // verus!
