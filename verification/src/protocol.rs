//! The pluggable per-connection protocol state machine.
//!
//! A protocol is an owned value replaced wholesale on every successful
//! transition.  Its buffer discipline is part of the contract: a callback
//! may only consume a front prefix of the inbound buffer and only append
//! behind the outbound buffer, which is what lets the core account for
//! every byte it moves.

use vstd::prelude::*;
use crate::machine::Async;
use crate::socket::Socket;
use crate::transport::Transport;

verus! {

/// The per-connection state machine supplied by the library's user,
/// polymorphic over a caller-supplied context passed to every callback
/// and never stored.
pub trait Protocol<C>: Sized {
    /// Called once, immediately after a connection is accepted and
    /// before registration.  Returning `None` rejects the connection and
    /// no connection value is created.
    fn accepted<S: Socket>(conn: &mut S, context: &mut C) -> Option<Self>;

    /// Invoked whenever new bytes were appended to the inbound buffer.
    /// The protocol consumes whatever front prefix it has fully
    /// processed and tolerates partial logical messages; it may append
    /// output to be flushed later.
    fn data_received(self, transport: &mut Transport, context: &mut C) -> (r: Async<Self, ()>)
        ensures
            final(transport).inbuf_bytes().is_suffix_of(old(transport).inbuf_bytes()),
            old(transport).outbuf_bytes().is_prefix_of(final(transport).outbuf_bytes()),
    ;

    /// Invoked after bytes were flushed to the socket, letting a state
    /// react to freed capacity.  The default continues unchanged.
    fn data_transferred(self, transport: &mut Transport, context: &mut C) -> (r: Async<Self, ()>)
        ensures
            final(transport).inbuf_bytes().is_suffix_of(old(transport).inbuf_bytes()),
            old(transport).outbuf_bytes().is_prefix_of(final(transport).outbuf_bytes()),
    {
        proof {
            crate::flow::lemma_suffix_refl(transport.inbuf_bytes());
            crate::flow::lemma_prefix_refl(transport.outbuf_bytes());
        }
        Async::Continue(self, ())
    }

    /// Terminal: an unrecoverable transfer failure.  Fires at most once
    /// per connection; the owner then discards the connection.
    fn error_happened(self, error: std::io::Error, context: &mut C) {
    }

    /// Terminal: a zero-byte transfer reported a clean close.  Fires at
    /// most once per connection; the owner then discards the connection.
    fn eof_received(self, context: &mut C) {
    }

    /// The external timer fired.  The default continues unchanged.
    fn timeout(self, context: &mut C) -> Async<Self, ()> {
        Async::Continue(self, ())
    }

    /// An external wakeup was delivered.  The default continues
    /// unchanged.
    fn wakeup(self, context: &mut C) -> Async<Self, ()> {
        Async::Continue(self, ())
    }
}

} // verus!
