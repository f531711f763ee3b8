//! Randomness, drawn from the thread-local generator of the `rand` crate.
use vstd::prelude::*;
use rand::Rng;
use rand::seq::SliceRandom;

verus! {

/// `p` lists each index below `n` exactly once.
pub open spec fn is_permutation(p: Seq<int>, n: nat) -> bool {
    &&& p.len() == n
    &&& forall|i: int| 0 <= i < n ==> 0 <= #[trigger] p[i] < n
    &&& forall|i: int, j: int| 0 <= i < j < n ==> #[trigger] p[i] != #[trigger] p[j]
}

/// `s` rearranged by the permutation `p`: entry `i` is `s[p[i]]`.
pub open spec fn permuted<A>(s: Seq<A>, p: Seq<int>) -> Seq<A> {
    Seq::new(s.len(), |i: int| s[p[i]])
}

/// Calls `rand::thread_rng().gen_range(lo..hi)`: a number drawn uniformly
/// from `lo` (inclusive) to `hi` (exclusive). Only the range is stated; the
/// value depends on the generator's state. `gen_range` panics on an empty
/// range, which `requires` rules out.
#[verifier::external_body]
pub(crate) fn random_below(lo: u64, hi: u64) -> (r: u64)
    requires
        lo < hi,
    ensures
        lo <= r < hi,
{
    rand::thread_rng().gen_range(lo..hi)
}

/// Calls `SliceRandom::shuffle` with `rand::thread_rng()`: the elements are
/// rearranged (a Fisher-Yates shuffle of swaps). Only that the result is a
/// rearrangement is stated; which one depends on the generator's state.
#[verifier::external_body]
pub(crate) fn shuffle<T>(v: &mut Vec<T>)
    ensures
        exists|p: Seq<int>|
            is_permutation(p, old(v)@.len()) && #[trigger] permuted(old(v)@, p) == final(v)@,
{
    v.shuffle(&mut rand::thread_rng());
}

/// Calls `SliceRandom::choose` with `rand::thread_rng()`: `None` on an empty
/// slice, else one of its elements. Which one depends on the generator's
/// state.
#[verifier::external_body]
pub(crate) fn choose_one<T: Copy>(items: &[T]) -> (r: Option<T>)
    ensures
        r is None <==> items@.len() == 0,
        r matches Some(x) ==> items@.contains(x),
{
    items.choose(&mut rand::thread_rng()).copied()
}

} // verus!
