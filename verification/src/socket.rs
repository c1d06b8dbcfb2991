//! The non-blocking duplex byte stream the connection core drives.
//!
//! A transfer attempt reports a byte count (zero meaning the peer or the
//! local side closed cleanly) or one of three error classes: would-block
//! (transient, suspends the affected direction), interrupted (transient,
//! retried immediately), or any other failure (terminal).  The
//! classification is the socket implementor's duty; the core only reacts
//! to it.

use vstd::prelude::*;

verus! {

#[verifier::external_type_specification]
#[verifier::external_body]
pub struct ExIoError(std::io::Error);

/// What one read attempt yielded.  An empty byte vector means the stream
/// was closed cleanly.
pub enum ReadOutcome {
    Bytes(Vec<u8>),
    WouldBlock,
    Interrupted,
    Failed(std::io::Error),
}

/// What one write attempt yielded.  A count of zero means the stream was
/// closed cleanly.
pub enum WriteOutcome {
    Transferred(usize),
    WouldBlock,
    Interrupted,
    Failed(std::io::Error),
}

/// A non-blocking duplex byte stream.
///
/// `sent` and `received` model the two byte streams the socket has moved
/// so far; they only ever grow, and they grow exactly by what a transfer
/// reports.  `credit` bounds how many transfers the socket still performs
/// before it reports would-block: every productive or interrupted attempt
/// spends some of it.  The bound is what makes one readiness call
/// provably finite; a socket is free to start each notification with any
/// credit it likes.
pub trait Socket: Sized {
    /// All bytes the socket has accepted for sending, oldest first.
    /// Left unspecified unless the implementor says otherwise.
    open spec fn sent(&self) -> Seq<u8> {
        vstd::pervasive::arbitrary()
    }

    /// All bytes the socket has handed out to read attempts, oldest
    /// first.  Left unspecified unless the implementor says otherwise.
    open spec fn received(&self) -> Seq<u8> {
        vstd::pervasive::arbitrary()
    }

    /// How many more productive or interrupted transfer attempts the
    /// socket performs before reporting would-block.  Left unspecified
    /// unless the implementor says otherwise.
    open spec fn credit(&self) -> nat {
        vstd::pervasive::arbitrary()
    }

    /// Attempt to write the front of `data` without blocking.  On
    /// `Transferred(n)`, the first `n` bytes of `data` were accepted; a
    /// zero count with non-empty data means the stream is closed.
    fn write(&mut self, data: &[u8]) -> (r: WriteOutcome)
        requires
            data@.len() >= 1,
        ensures
            final(self).received() == old(self).received(),
            match r {
                WriteOutcome::Transferred(n) => n <= data@.len()
                    && final(self).sent() == old(self).sent() + data@.take(n as int)
                    && (n >= 1 ==> final(self).credit() < old(self).credit()),
                WriteOutcome::Interrupted => final(self).sent() == old(self).sent()
                    && final(self).credit() < old(self).credit(),
                _ => final(self).sent() == old(self).sent(),
            },
    ;

    /// Attempt to read at most `max` bytes without blocking.  On
    /// `Bytes(v)`, exactly the bytes of `v` were taken off the stream;
    /// an empty `v` means the stream is closed.
    fn read(&mut self, max: usize) -> (r: ReadOutcome)
        requires
            max >= 1,
        ensures
            final(self).sent() == old(self).sent(),
            match r {
                ReadOutcome::Bytes(v) => v@.len() <= max
                    && final(self).received() == old(self).received() + v@
                    && (v@.len() >= 1 ==> final(self).credit() < old(self).credit()),
                ReadOutcome::Interrupted => final(self).received() == old(self).received()
                    && final(self).credit() < old(self).credit(),
                _ => final(self).received() == old(self).received(),
            },
    ;
}

} // verus!
