//! Lemmas about how byte streams grow and drain.
//!
//! The connection core moves bytes in one direction only: buffers gain
//! bytes at the back and lose bytes at the front.  These lemmas let the
//! core chain `is_prefix_of` / `is_suffix_of` facts across the phases of
//! one readiness call.

use vstd::prelude::*;

verus! {

/// A sequence is a prefix of itself.
pub proof fn lemma_prefix_refl<A>(s: Seq<A>)
    ensures
        s.is_prefix_of(s),
{
    assert(s =~= s.subrange(0, s.len() as int));
}

/// A sequence is a suffix of itself.
pub proof fn lemma_suffix_refl<A>(s: Seq<A>)
    ensures
        s.is_suffix_of(s),
{
    assert(s =~= s.subrange(0, s.len() as int));
}

/// Being a prefix is transitive.
pub proof fn lemma_prefix_trans<A>(a: Seq<A>, b: Seq<A>, c: Seq<A>)
    requires
        a.is_prefix_of(b),
        b.is_prefix_of(c),
    ensures
        a.is_prefix_of(c),
{
    assert(a =~= c.subrange(0, a.len() as int));
}

/// Being a suffix is transitive.
pub proof fn lemma_suffix_trans<A>(a: Seq<A>, b: Seq<A>, c: Seq<A>)
    requires
        a.is_suffix_of(b),
        b.is_suffix_of(c),
    ensures
        a.is_suffix_of(c),
{
    assert(a =~= c.subrange((c.len() - a.len()) as int, c.len() as int));
}

/// A sequence is a prefix of itself with anything appended.
pub proof fn lemma_prefix_of_concat<A>(a: Seq<A>, b: Seq<A>)
    ensures
        a.is_prefix_of(a + b),
{
    assert(a =~= (a + b).subrange(0, a.len() as int));
}

/// Appending on the right of both sides keeps a prefix a prefix.
pub proof fn lemma_append_keeps_prefix<A>(x: Seq<A>, a: Seq<A>, b: Seq<A>)
    requires
        a.is_prefix_of(b),
    ensures
        (x + a).is_prefix_of(x + b),
{
    assert((x + a) =~= (x + b).subrange(0, (x + a).len() as int));
}

/// Appending the same bytes to both sides keeps a suffix a suffix.
pub proof fn lemma_append_keeps_suffix<A>(a: Seq<A>, b: Seq<A>, d: Seq<A>)
    requires
        a.is_suffix_of(b),
    ensures
        (a + d).is_suffix_of(b + d),
{
    assert((a + d) =~= (b + d).subrange(
        ((b + d).len() - (a + d).len()) as int,
        (b + d).len() as int,
    ));
}

/// Appending the empty sequence changes nothing.
pub proof fn lemma_append_empty<A>(s: Seq<A>)
    ensures
        s + Seq::<A>::empty() == s,
{
    assert(s + Seq::<A>::empty() =~= s);
}

/// Skipping a whole sequence leaves nothing.
pub proof fn lemma_skip_all<A>(s: Seq<A>)
    ensures
        s.skip(s.len() as int) == Seq::<A>::empty(),
{
    assert(s.skip(s.len() as int) =~= Seq::<A>::empty());
}

/// Splitting a sequence at any point and gluing the parts back is the
/// identity.
pub proof fn lemma_take_skip_round<A>(s: Seq<A>, n: int)
    requires
        0 <= n <= s.len(),
    ensures
        s.take(n) + s.skip(n) == s,
{
    assert(s.take(n) + s.skip(n) =~= s);
}

/// Concatenation is associative.
pub proof fn lemma_concat_assoc<A>(a: Seq<A>, b: Seq<A>, c: Seq<A>)
    ensures
        (a + b) + c == a + (b + c),
{
    assert((a + b) + c =~= a + (b + c));
}

/// What stands after an existing front part of a concatenation is exactly
/// the appended back part.
pub proof fn lemma_skip_of_concat<A>(a: Seq<A>, b: Seq<A>)
    ensures
        (a + b).skip(a.len() as int) == b,
{
    assert((a + b).skip(a.len() as int) =~= b);
}

} // verus!
