//! The scoped buffer view handed to protocol callbacks.
//!
//! A `Transport` holds the connection's two byte buffers and exposes
//! nothing else: a protocol inspects and consumes the front of the
//! inbound buffer through [`Transport::input`] and appends outbound
//! bytes through [`Transport::output`].  No socket access is exposed;
//! all transfers are funneled through the connection core, which is what
//! lets the core cache edge-triggered readiness soundly.

use vstd::prelude::*;
use netbuf::Buf;
use crate::buffer::buf_bytes;

verus! {

/// The pair of connection buffers a protocol callback may act on.
pub struct Transport {
    pub(crate) inbuf: Buf,
    pub(crate) outbuf: Buf,
}

impl Transport {
    /// The bytes currently waiting in the inbound buffer, oldest first.
    pub open(crate) spec fn inbuf_bytes(self) -> Seq<u8> {
        buf_bytes(self.inbuf)
    }

    /// The bytes currently waiting in the outbound buffer, oldest first.
    pub open(crate) spec fn outbuf_bytes(self) -> Seq<u8> {
        buf_bytes(self.outbuf)
    }

    /// Build a transport view over an inbound and an outbound buffer.
    pub fn new(inbuf: Buf, outbuf: Buf) -> (r: Transport)
        ensures
            r.inbuf_bytes() == buf_bytes(inbuf),
            r.outbuf_bytes() == buf_bytes(outbuf),
    {
        Transport { inbuf, outbuf }
    }

    /// Mutable access to the inbound buffer: the protocol inspects the
    /// buffered bytes and consumes the front prefix it has fully
    /// processed.
    pub fn input(&mut self) -> (r: &mut Buf)
        ensures
            buf_bytes(*r) == old(self).inbuf_bytes(),
            final(self).inbuf_bytes() == buf_bytes(*final(r)),
            final(self).outbuf_bytes() == old(self).outbuf_bytes(),
    {
        &mut self.inbuf
    }

    /// Mutable access to the outbound buffer: the protocol appends bytes
    /// to be flushed to the socket by later phases of the core.
    pub fn output(&mut self) -> (r: &mut Buf)
        ensures
            buf_bytes(*r) == old(self).outbuf_bytes(),
            final(self).outbuf_bytes() == buf_bytes(*final(r)),
            final(self).inbuf_bytes() == old(self).inbuf_bytes(),
    {
        &mut self.outbuf
    }
}

/// Law: bytes appended behind existing buffer contents and then taken
/// back off past those contents come back unchanged — the transport
/// plumbing neither loses nor reorders appended bytes.
pub proof fn lemma_output_round_trip(held: Seq<u8>, appended: Seq<u8>)
    ensures
        (held + appended).skip(held.len() as int) == appended,
{
    crate::flow::lemma_skip_of_concat(held, appended);
}

} // verus!
