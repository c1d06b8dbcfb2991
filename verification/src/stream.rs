//! The connection core: one duplex stream driven by readiness events.
//!
//! A [`Stream`] owns the socket, the two buffers, the cached readiness
//! flags and the current protocol state.  Every entry point consumes the
//! connection and returns either a rebuilt connection (continue) or a
//! stop signal, on which the owner destroys the connection.

use vstd::prelude::*;
use std::marker::PhantomData;
use netbuf::Buf;
use crate::buffer::{buf_consume, buf_data, buf_extend, buf_len, buf_new};
use crate::event::EventSet;
use crate::flow::{
    lemma_append_empty, lemma_append_keeps_prefix, lemma_append_keeps_suffix, lemma_concat_assoc,
    lemma_prefix_of_concat, lemma_prefix_refl, lemma_prefix_trans, lemma_skip_all,
    lemma_skip_of_concat, lemma_suffix_refl, lemma_suffix_trans, lemma_take_skip_round,
};
use crate::machine::Async;
use crate::protocol::Protocol;
use crate::socket::{ReadOutcome, Socket, WriteOutcome};
use crate::transport::Transport;

verus! {

/// A deadline for the external timer collaborator, as a steady-clock
/// instant in milliseconds since an arbitrary epoch.
pub struct Timeout(pub u64);

/// The reactor's registration capability.  The implementor registers the
/// socket with the reactor for edge-triggered delivery of the given
/// readiness interest; a connection invokes it exactly once, right after
/// construction and before any readiness call.
pub trait Registrator<S> {
    fn register(&mut self, socket: &S, interest: EventSet);
}

/// The write-loop shared by the two flush phases: repeatedly move the
/// front of the outbound buffer to the socket until the buffer drains or
/// the socket reports would-block.  A zero-byte transfer is a clean close
/// (terminal `eof_received`); interruptions retry immediately; any other
/// failure is terminal (`error_happened`).  After every productive
/// transfer the protocol is offered the freed capacity through
/// `data_transferred`.
fn flush<C, S: Socket, P: Protocol<C>>(
    socket: &mut S,
    transport: &mut Transport,
    writable: &mut bool,
    fsm: P,
    context: &mut C,
) -> (r: Async<P, ()>)
    ensures
        final(socket).received() == old(socket).received(),
        old(socket).sent().is_prefix_of(final(socket).sent()),
        r matches Async::Continue(_, _) ==> {
            &&& final(transport).inbuf_bytes().is_suffix_of(old(transport).inbuf_bytes())
            &&& (old(socket).sent() + old(transport).outbuf_bytes()).is_prefix_of(
                final(socket).sent() + final(transport).outbuf_bytes(),
            )
            &&& (*final(writable) ==> *old(writable) && final(transport).outbuf_bytes().len()
                == 0)
        },
{
    let mut fsm = fsm;
    proof {
        lemma_suffix_refl(old(transport).inbuf_bytes());
        lemma_prefix_refl(old(socket).sent() + old(transport).outbuf_bytes());
        lemma_prefix_refl(old(socket).sent());
    }
    loop
        invariant
            socket.received() == old(socket).received(),
            old(socket).sent().is_prefix_of(socket.sent()),
            transport.inbuf_bytes().is_suffix_of(old(transport).inbuf_bytes()),
            (old(socket).sent() + old(transport).outbuf_bytes()).is_prefix_of(
                socket.sent() + transport.outbuf_bytes(),
            ),
            *writable ==> *old(writable),
        ensures
            socket.received() == old(socket).received(),
            old(socket).sent().is_prefix_of(socket.sent()),
            transport.inbuf_bytes().is_suffix_of(old(transport).inbuf_bytes()),
            (old(socket).sent() + old(transport).outbuf_bytes()).is_prefix_of(
                socket.sent() + transport.outbuf_bytes(),
            ),
            *writable ==> *old(writable),
            !*writable || transport.outbuf_bytes().len() == 0,
        decreases socket.credit(),
    {
        let n: usize = buf_len(&transport.outbuf);
        if n == 0 {
            break;
        }
        let ghost sent_pre: Seq<u8> = socket.sent();
        let ghost out_pre: Seq<u8> = transport.outbuf_bytes();
        match socket.write(buf_data(&transport.outbuf)) {
            WriteOutcome::Transferred(k) => {
                if k == 0 {
                    // a zero-byte transfer with a non-empty buffer: the
                    // stream closed cleanly
                    proof {
                        assert(out_pre.take(0) =~= Seq::<u8>::empty());
                        lemma_append_empty(sent_pre);
                        assert(socket.sent() == sent_pre);
                    }
                    fsm.eof_received(context);
                    return Async::Stop;
                }
                buf_consume(&mut transport.outbuf, k);
                proof {
                    lemma_take_skip_round(out_pre, k as int);
                    lemma_concat_assoc(sent_pre, out_pre.take(k as int), out_pre.skip(k as int));
                    assert(socket.sent() + transport.outbuf_bytes() == sent_pre + out_pre);
                    lemma_prefix_of_concat(sent_pre, out_pre.take(k as int));
                    lemma_prefix_trans(old(socket).sent(), sent_pre, socket.sent());
                }
                let ghost sent_now: Seq<u8> = socket.sent();
                let ghost out_mid: Seq<u8> = transport.outbuf_bytes();
                let ghost in_mid: Seq<u8> = transport.inbuf_bytes();
                fsm = match fsm.data_transferred(transport, context) {
                    Async::Continue(f, _) => f,
                    Async::Stop => {
                        return Async::Stop;
                    },
                };
                proof {
                    lemma_append_keeps_prefix(sent_now, out_mid, transport.outbuf_bytes());
                    lemma_prefix_trans(
                        old(socket).sent() + old(transport).outbuf_bytes(),
                        sent_now + out_mid,
                        sent_now + transport.outbuf_bytes(),
                    );
                    lemma_suffix_trans(
                        transport.inbuf_bytes(),
                        in_mid,
                        old(transport).inbuf_bytes(),
                    );
                }
            },
            WriteOutcome::WouldBlock => {
                *writable = false;
                break;
            },
            WriteOutcome::Interrupted => {},
            WriteOutcome::Failed(e) => {
                fsm.error_happened(e, context);
                return Async::Stop;
            },
        }
    }
    Async::Continue(fsm, ())
}

/// The read-loop of the fill phase: repeatedly move bytes from the socket
/// to the back of the inbound buffer until the socket reports would-block,
/// handing every freshly delivered chunk to the protocol through
/// `data_received`.  The four transfer outcomes are handled exactly as in
/// the write loop.
fn fill<C, S: Socket, P: Protocol<C>>(
    socket: &mut S,
    transport: &mut Transport,
    readable: &mut bool,
    fsm: P,
    context: &mut C,
) -> (r: Async<P, ()>)
    ensures
        final(socket).sent() == old(socket).sent(),
        old(socket).received().is_prefix_of(final(socket).received()),
        r matches Async::Continue(_, _) ==> {
            &&& final(transport).inbuf_bytes().is_suffix_of(
                old(transport).inbuf_bytes() + final(socket).received().skip(
                    old(socket).received().len() as int,
                ),
            )
            &&& old(transport).outbuf_bytes().is_prefix_of(final(transport).outbuf_bytes())
            &&& (*final(readable) ==> *old(readable))
            &&& (!*final(readable) || final(transport).inbuf_bytes().len() >= usize::MAX / 4)
        },
{
    let mut fsm = fsm;
    let ghost mut delta: Seq<u8> = Seq::<u8>::empty();
    proof {
        lemma_append_empty(old(socket).received());
        lemma_append_empty(old(transport).inbuf_bytes());
        lemma_suffix_refl(old(transport).inbuf_bytes());
        lemma_prefix_refl(old(transport).outbuf_bytes());
        lemma_prefix_refl(old(socket).received());
    }
    loop
        invariant
            socket.sent() == old(socket).sent(),
            socket.received() == old(socket).received() + delta,
            old(socket).received().is_prefix_of(socket.received()),
            transport.inbuf_bytes().is_suffix_of(old(transport).inbuf_bytes() + delta),
            old(transport).outbuf_bytes().is_prefix_of(transport.outbuf_bytes()),
            *readable ==> *old(readable),
        ensures
            socket.sent() == old(socket).sent(),
            socket.received() == old(socket).received() + delta,
            old(socket).received().is_prefix_of(socket.received()),
            transport.inbuf_bytes().is_suffix_of(old(transport).inbuf_bytes() + delta),
            old(transport).outbuf_bytes().is_prefix_of(transport.outbuf_bytes()),
            *readable ==> *old(readable),
            !*readable || transport.inbuf_bytes().len() >= usize::MAX / 4,
        decreases socket.credit(),
    {
        let inlen: usize = buf_len(&transport.inbuf);
        if inlen >= usize::MAX / 4 {
            // the inbound buffer may not grow any further
            break;
        }
        let max: usize = usize::MAX / 4 - inlen;
        let ghost recv_pre: Seq<u8> = socket.received();
        let ghost in_pre: Seq<u8> = transport.inbuf_bytes();
        match socket.read(max) {
            ReadOutcome::Bytes(v) => {
                if v.len() == 0 {
                    // a zero-byte transfer: the stream closed cleanly
                    proof {
                        assert(v@ =~= Seq::<u8>::empty());
                        lemma_append_empty(recv_pre);
                        assert(socket.received() == recv_pre);
                    }
                    fsm.eof_received(context);
                    return Async::Stop;
                }
                buf_extend(&mut transport.inbuf, v.as_slice());
                proof {
                    lemma_concat_assoc(old(socket).received(), delta, v@);
                    lemma_append_keeps_suffix(
                        in_pre,
                        old(transport).inbuf_bytes() + delta,
                        v@,
                    );
                    lemma_concat_assoc(old(transport).inbuf_bytes(), delta, v@);
                    lemma_prefix_of_concat(recv_pre, v@);
                    lemma_prefix_trans(old(socket).received(), recv_pre, socket.received());
                    delta = delta + v@;
                }
                let ghost in_mid: Seq<u8> = transport.inbuf_bytes();
                let ghost out_mid: Seq<u8> = transport.outbuf_bytes();
                fsm = match fsm.data_received(transport, context) {
                    Async::Continue(f, _) => f,
                    Async::Stop => {
                        return Async::Stop;
                    },
                };
                proof {
                    lemma_suffix_trans(
                        transport.inbuf_bytes(),
                        in_mid,
                        old(transport).inbuf_bytes() + delta,
                    );
                    lemma_prefix_trans(
                        old(transport).outbuf_bytes(),
                        out_mid,
                        transport.outbuf_bytes(),
                    );
                }
            },
            ReadOutcome::WouldBlock => {
                *readable = false;
                break;
            },
            ReadOutcome::Interrupted => {},
            ReadOutcome::Failed(e) => {
                fsm.error_happened(e, context);
                return Async::Stop;
            },
        }
    }
    proof {
        lemma_prefix_of_concat(old(socket).received(), delta);
        lemma_skip_of_concat(old(socket).received(), delta);
    }
    Async::Continue(fsm, ())
}

struct Inner<S> {
    socket: S,
    transport: Transport,
    writable: bool,
    readable: bool,
}

/// One buffered duplex connection: a socket, an inbound and an outbound
/// buffer, the two cached readiness flags, and the current protocol
/// state, parameterized by a caller-supplied context `C`.
pub struct Stream<C, S: Socket, P: Protocol<C>>(Inner<S>, P, PhantomData<C>);

impl<C, S: Socket, P: Protocol<C>> Stream<C, S, P> {
    /// The bytes waiting in the inbound buffer.
    pub closed spec fn inbuf(self) -> Seq<u8> {
        self.0.transport.inbuf_bytes()
    }

    /// The bytes waiting in the outbound buffer.
    pub closed spec fn outbuf(self) -> Seq<u8> {
        self.0.transport.outbuf_bytes()
    }

    /// The cached readable flag: set by a readable notification, cleared
    /// the instant a read reports would-block.
    pub closed spec fn readable(self) -> bool {
        self.0.readable
    }

    /// The cached writable flag: set by a writable notification, cleared
    /// the instant a write reports would-block.
    pub closed spec fn writable(self) -> bool {
        self.0.writable
    }

    /// The owned socket.
    pub closed spec fn sock(self) -> S {
        self.0.socket
    }

    /// The current protocol state.
    pub closed spec fn state(self) -> P {
        self.1
    }

    /// The cached readable flag.
    pub fn is_readable(&self) -> (r: bool)
        ensures
            r == self.readable(),
    {
        self.0.readable
    }

    /// The cached writable flag.
    pub fn is_writable(&self) -> (r: bool)
        ensures
            r == self.writable(),
    {
        self.0.writable
    }

    /// How many bytes wait in the inbound buffer.
    pub fn input_len(&self) -> (r: usize)
        ensures
            r == self.inbuf().len(),
    {
        buf_len(&self.0.transport.inbuf)
    }

    /// How many bytes wait in the outbound buffer.
    pub fn output_len(&self) -> (r: usize)
        ensures
            r == self.outbuf().len(),
    {
        buf_len(&self.0.transport.outbuf)
    }

    /// Tear the connection apart, handing the socket and the protocol
    /// state back to the owner; the buffers and cached flags are
    /// discarded.
    pub fn into_parts(self) -> (r: (S, P))
        ensures
            r.0 == self.sock(),
            r.1 == self.state(),
    {
        let Stream(inner, fsm, _) = self;
        (inner.socket, fsm)
    }

    /// Let the protocol inspect the accepted socket; on acceptance, wrap
    /// it with two empty buffers.  A fresh connection starts not
    /// readable, and optimistically writable: an accepted socket is
    /// assumed writable until proven otherwise, which saves a wasted
    /// write attempt before the first notification (a tunable heuristic,
    /// not load-bearing for correctness).
    pub fn accept(socket: S, context: &mut C) -> (r: Option<Self>)
        ensures
            r matches Some(s) ==> {
                &&& s.inbuf() == Seq::<u8>::empty()
                &&& s.outbuf() == Seq::<u8>::empty()
                &&& !s.readable()
                &&& s.writable()
            },
    {
        let mut conn = socket;
        let protocol = match P::accepted(&mut conn, context) {
            Some(x) => x,
            None => {
                return None;
            },
        };
        Some(
            Stream(
                Inner {
                    socket: conn,
                    transport: Transport::new(buf_new(), buf_new()),
                    readable: false,
                    writable: true,
                },
                protocol,
                PhantomData,
            ),
        )
    }

    /// Register the socket for edge-triggered interest in both readable
    /// and writable readiness.  Called exactly once, immediately after
    /// construction and before any readiness call; edge-triggered
    /// interest is assumed persistent, so there is no re-registration
    /// path.  The connection itself passes through unchanged.
    pub fn register<R: Registrator<S>>(self, reg: &mut R) -> (r: Async<Self, ()>)
        ensures
            r matches Async::Continue(s, _) && s == self,
    {
        reg.register(&self.0.socket, EventSet::all());
        Async::Continue(self, ())
    }

    /// Process one readiness notification to quiescence.
    ///
    /// Phase A (conditional flush): if the event set marks writable and
    /// the outbound buffer is non-empty, cache writable and run the write
    /// loop.  Phase B (conditional fill): if the event set marks
    /// readable, cache readable and run the read loop.  Phase C
    /// (opportunistic flush): if the cached writable flag survived and
    /// the outbound buffer is non-empty again — the protocol appended
    /// output during phase B — run the write loop once more, whatever
    /// the triggering event set contained; edge-triggered delivery may
    /// never re-announce writability.  Writable is handled before
    /// readable so output capacity is freed before input that may
    /// generate more output is admitted.  A terminal outcome in any
    /// phase short-circuits all later phases.
    ///
    /// The contract accounts for every byte: what the socket accepted
    /// plus what still waits in the outbound buffer extends the old
    /// outbound stream in order, and the inbound buffer holds a suffix
    /// of the old inbound bytes followed by everything read during the
    /// call — delivered to `data_received` without loss or duplication.
    pub fn ready(self, evset: EventSet, context: &mut C) -> (r: Async<Self, Option<Self>>)
        ensures
            r matches Async::Continue(_, v) ==> v is None,
            (!evset.readable && (self.outbuf().len() == 0 || (!evset.writable
                && !self.writable()))) ==> (r matches Async::Continue(c, v) && c == self
                && v is None),
            r matches Async::Continue(c, _) ==> {
                &&& self.sock().sent().is_prefix_of(c.sock().sent())
                &&& self.sock().received().is_prefix_of(c.sock().received())
                &&& (self.sock().sent() + self.outbuf()).is_prefix_of(
                    c.sock().sent() + c.outbuf(),
                )
                &&& c.inbuf().is_suffix_of(
                    self.inbuf() + c.sock().received().skip(
                        self.sock().received().len() as int,
                    ),
                )
                &&& (!evset.readable ==> c.readable() == self.readable())
                &&& (evset.readable ==> (!c.readable() || self.inbuf().len()
                    + c.sock().received().len() - self.sock().received().len()
                    >= usize::MAX / 4))
                &&& (c.writable() ==> c.outbuf().len() == 0)
                &&& (c.writable() ==> (self.writable() || (evset.writable
                    && self.outbuf().len() > 0)))
            },
    {
        let Stream(inner, fsm, marker) = self;
        let Inner { socket, transport, writable, readable } = inner;
        let mut socket = socket;
        let mut transport = transport;
        let mut writable = writable;
        let mut readable = readable;
        let mut fsm = fsm;
        let ghost sent0: Seq<u8> = socket.sent();
        let ghost recv0: Seq<u8> = socket.received();
        let ghost in0: Seq<u8> = transport.inbuf_bytes();
        let ghost out0: Seq<u8> = transport.outbuf_bytes();
        let ghost w0: bool = writable;

        // Phase A: conditional flush
        if evset.is_writable() && buf_len(&transport.outbuf) > 0 {
            writable = true;
            fsm = match flush(&mut socket, &mut transport, &mut writable, fsm, context) {
                Async::Continue(f, _) => f,
                Async::Stop => {
                    return Async::Stop;
                },
            };
        }
        let ghost sent_a: Seq<u8> = socket.sent();
        let ghost in_a: Seq<u8> = transport.inbuf_bytes();
        let ghost out_a: Seq<u8> = transport.outbuf_bytes();
        proof {
            lemma_prefix_refl(sent0 + out0);
            lemma_suffix_refl(in0);
            lemma_prefix_refl(sent0);
            assert(socket.received() == recv0);
            assert(sent0.is_prefix_of(sent_a));
            assert((sent0 + out0).is_prefix_of(sent_a + out_a));
            assert(in_a.is_suffix_of(in0));
            assert(writable ==> (w0 || (evset.writable && out0.len() > 0)));
        }

        // Phase B: conditional fill
        if evset.is_readable() {
            readable = true;
            fsm = match fill(&mut socket, &mut transport, &mut readable, fsm, context) {
                Async::Continue(f, _) => f,
                Async::Stop => {
                    return Async::Stop;
                },
            };
        }
        let ghost delta: Seq<u8> = socket.received().skip(recv0.len() as int);
        let ghost in_b: Seq<u8> = transport.inbuf_bytes();
        let ghost out_b: Seq<u8> = transport.outbuf_bytes();
        proof {
            lemma_skip_all(recv0);
            lemma_append_empty(in_a);
            lemma_suffix_refl(in_b);
            lemma_prefix_refl(out_a);
            lemma_prefix_refl(recv0);
            assert(socket.sent() == sent_a);
            assert(recv0.is_prefix_of(socket.received()));
            assert(in_b.is_suffix_of(in_a + delta));
            assert(out_a.is_prefix_of(out_b));
            assert(evset.readable ==> (!readable || in_b.len() >= usize::MAX / 4));
            assert(!evset.readable ==> delta == Seq::<u8>::empty());
            lemma_append_keeps_prefix(sent_a, out_a, out_b);
            lemma_prefix_trans(sent0 + out0, sent_a + out_a, sent_a + out_b);
        }

        // Phase C: opportunistic flush
        if writable && buf_len(&transport.outbuf) > 0 {
            fsm = match flush(&mut socket, &mut transport, &mut writable, fsm, context) {
                Async::Continue(f, _) => f,
                Async::Stop => {
                    return Async::Stop;
                },
            };
        }
        proof {
            lemma_prefix_refl(sent_a + out_b);
            lemma_suffix_refl(in_b);
            lemma_prefix_refl(sent_a);
            assert(socket.received() == recv0 + delta);
            assert((sent_a + out_b).is_prefix_of(socket.sent() + transport.outbuf_bytes()));
            assert(transport.inbuf_bytes().is_suffix_of(in_b));
            lemma_prefix_trans(
                sent0 + out0,
                sent_a + out_b,
                socket.sent() + transport.outbuf_bytes(),
            );
            lemma_prefix_trans(sent0, sent_a, socket.sent());
            lemma_append_keeps_suffix(in_a, in0, delta);
            lemma_suffix_trans(in_b, in_a + delta, in0 + delta);
            lemma_suffix_trans(transport.inbuf_bytes(), in_b, in0 + delta);
            assert(writable ==> transport.outbuf_bytes().len() == 0);
            lemma_skip_of_concat(recv0, delta);
            assert(socket.received().skip(recv0.len() as int) == delta);
        }
        let next = Stream(
            Inner { socket, transport, writable, readable },
            fsm,
            marker,
        );
        proof {
            if !evset.readable && (out0.len() == 0 || (!evset.writable && !w0)) {
                assert(next == self);
            }
        }
        Async::Continue(next, None)
    }

    /// Forward a timer firing to the protocol and rebuild on continue.
    /// No buffer or socket interaction takes place.
    pub fn timeout(self, context: &mut C) -> (r: Async<Self, Option<Self>>)
        ensures
            r matches Async::Continue(c, v) ==> {
                &&& v is None
                &&& c.inbuf() == self.inbuf()
                &&& c.outbuf() == self.outbuf()
                &&& c.readable() == self.readable()
                &&& c.writable() == self.writable()
                &&& c.sock() == self.sock()
            },
    {
        let Stream(inner, fsm, marker) = self;
        match fsm.timeout(context) {
            Async::Continue(f, _) => Async::Continue(Stream(inner, f, marker), None),
            Async::Stop => Async::Stop,
        }
    }

    /// Forward an external wakeup to the protocol and rebuild on
    /// continue.  No buffer or socket interaction takes place.
    pub fn wakeup(self, context: &mut C) -> (r: Async<Self, Option<Self>>)
        ensures
            r matches Async::Continue(c, v) ==> {
                &&& v is None
                &&& c.inbuf() == self.inbuf()
                &&& c.outbuf() == self.outbuf()
                &&& c.readable() == self.readable()
                &&& c.writable() == self.writable()
                &&& c.sock() == self.sock()
            },
    {
        let Stream(inner, fsm, marker) = self;
        match fsm.wakeup(context) {
            Async::Continue(f, _) => Async::Continue(Stream(inner, f, marker), None),
            Async::Stop => Async::Stop,
        }
    }
}

} // verus!
