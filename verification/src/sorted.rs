//! What sorted sequences hold.

use crate::search::{origin_of, picked_at};
use crate::sorting::{ranked_with, same_rank, stably_sorted, Ranked};
use vstd::prelude::*;

verus! {

/// What is sorted at `i` was there before.
pub proof fn was_there<T: Ranked>(s: Seq<T::V>, sorted: Seq<T::V>, i: int) -> (j: int)
    requires
        stably_sorted::<T>(s, sorted),
        0 <= i < sorted.len(),
    ensures
        0 <= j < s.len(),
        s[j] == sorted[i],
{
    let x = sorted[i];
    let p = |e: T::V| same_rank::<T>(e, x);
    T::ranks_are_total(x, x);
    let k = picked_at(sorted, p, i);
    assert(ranked_with::<T>(sorted, x) == ranked_with::<T>(s, x));
    origin_of(s, p, k)
}

/// What shares a rank is picked by any condition that holds of just that.
pub proof fn ranked_with_picks<T: Ranked>(s: Seq<T::V>, x: T::V, p: spec_fn(T::V) -> bool)
    requires
        forall|e: T::V| #[trigger] p(e) == same_rank::<T>(e, x),
    ensures
        ranked_with::<T>(s, x) == s.filter(p),
{
    let q = |e: T::V| same_rank::<T>(e, x);
    assert forall|e: T::V| #[trigger] p(e) == q(e) by {}
    assert(p =~= q);
}

} // verus!
