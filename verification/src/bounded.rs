//! Bounded histories: logs that keep only their most recent entries.

use vstd::prelude::*;

verus! {

/// The last `n` elements of `s` (all of `s` if it is shorter).
pub open spec fn keep_last<A>(s: Seq<A>, n: nat) -> Seq<A> {
    if s.len() <= n {
        s
    } else {
        s.subrange(s.len() - n, s.len() as int)
    }
}

/// Appending to a window of the last `n` entries and then trimming it back
/// to `n` gives the last `n` entries of the whole history.
pub proof fn lemma_keep_last_push<A>(s: Seq<A>, e: A, n: nat)
    ensures
        keep_last(keep_last(s, n).push(e), n) == keep_last(s.push(e), n),
{
    let k = keep_last(s, n);
    if s.len() <= n {
        assert(k == s);
    } else {
        assert(k.len() == n);
        if n == 0 {
            assert(keep_last(k.push(e), n) =~= Seq::<A>::empty());
            assert(keep_last(s.push(e), n) =~= Seq::<A>::empty());
        } else {
            assert(keep_last(k.push(e), n) =~= keep_last(s.push(e), n));
        }
    }
}

/// Dropping the oldest entry of a full window and appending is the same as
/// trimming the extended history to the window size.
pub proof fn lemma_drop_first_push_is_keep_last<A>(w: Seq<A>, e: A, n: nat)
    requires
        w.len() == n,
        n > 0,
    ensures
        w.drop_first().push(e) == keep_last(w.push(e), n),
{
    assert(w.drop_first().push(e) =~= keep_last(w.push(e), n));
}

} // verus!
