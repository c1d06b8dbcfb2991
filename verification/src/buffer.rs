//! The growable byte queue that backs the two connection buffers.
//!
//! The queue itself comes from the `netbuf` crate; this module declares it
//! to the verifier and gives each operation the connection core calls a
//! contract over `buf_bytes`, the mathematical contents of a buffer.

use vstd::prelude::*;
use netbuf::Buf;

verus! {

#[verifier::external_type_specification]
#[verifier::external_body]
pub struct ExBuf(netbuf::Buf);

/// The bytes a buffer currently holds, oldest first.
pub uninterp spec fn buf_bytes(b: Buf) -> Seq<u8>;

/// Relies on netbuf::Buf::new: creates a buffer holding no bytes.
#[verifier::external_body]
pub(crate) fn buf_new() -> (r: Buf)
    ensures
        buf_bytes(r) == Seq::<u8>::empty(),
{
    Buf::new()
}

/// Relies on netbuf::Buf::len: reports the number of useful bytes held.
#[verifier::external_body]
pub(crate) fn buf_len(b: &Buf) -> (r: usize)
    ensures
        r == buf_bytes(*b).len(),
{
    b.len()
}

/// Relies on netbuf's Index<RangeFull>: exposes the held bytes, oldest
/// first, without removing them.
#[verifier::external_body]
pub(crate) fn buf_data(b: &Buf) -> (r: &[u8])
    ensures
        r@ == buf_bytes(*b),
{
    &b[..]
}

/// Relies on netbuf::Buf::extend: appends the given bytes at the back.
/// The precondition keeps every capacity netbuf may request while
/// growing (at worst the doubled old allocation plus the appended bytes)
/// below the allocator's limit, so the call cannot panic.
#[verifier::external_body]
pub(crate) fn buf_extend(b: &mut Buf, data: &[u8])
    requires
        buf_bytes(*old(b)).len() + data@.len() <= usize::MAX / 4,
    ensures
        buf_bytes(*final(b)) == buf_bytes(*old(b)) + data@,
{
    b.extend(data)
}

/// Relies on netbuf::Buf::consume: drops the first `n` bytes.  netbuf
/// panics when `n` exceeds the buffer length; the precondition rules that
/// out.
#[verifier::external_body]
pub(crate) fn buf_consume(b: &mut Buf, n: usize)
    requires
        n <= buf_bytes(*old(b)).len(),
    ensures
        buf_bytes(*final(b)) == buf_bytes(*old(b)).skip(n as int),
{
    b.consume(n)
}

} // verus!
