//! Stable sorting.

use vstd::prelude::*;

verus! {

/// What can be put in order: a total order of ranks, in which different things may share
/// a rank.
pub trait Ranked: View + Sized {
    spec fn before_or_with(a: Self::V, b: Self::V) -> bool;

    proof fn ranks_are_total(a: Self::V, b: Self::V)
        ensures
            Self::before_or_with(a, b) || Self::before_or_with(b, a),
    ;

    proof fn ranks_are_transitive(a: Self::V, b: Self::V, c: Self::V)
        requires
            Self::before_or_with(a, b),
            Self::before_or_with(b, c),
        ensures
            Self::before_or_with(a, c),
    ;

    fn goes_before_or_with(&self, other: &Self) -> (r: bool)
        ensures
            r == Self::before_or_with(self@, other@),
    ;
}

/// The views of the elements.
pub open spec fn views<T: View>(v: Seq<T>) -> Seq<T::V> {
    v.map_values(|e: T| e@)
}

/// The two share a rank.
pub open spec fn same_rank<T: Ranked>(a: T::V, b: T::V) -> bool {
    T::before_or_with(a, b) && T::before_or_with(b, a)
}

/// The elements that share a rank with `x`, in their order.
pub open spec fn ranked_with<T: Ranked>(s: Seq<T::V>, x: T::V) -> Seq<T::V> {
    s.filter(|e: T::V| same_rank::<T>(e, x))
}

pub open spec fn in_order<T: Ranked>(s: Seq<T::V>) -> bool {
    forall|i: int, j: int| 0 <= i < j < s.len() ==> T::before_or_with(s[i], s[j])
}

/// `sorted` is in order and holds what `s` holds; what shares a rank is in the order
/// that it has in `s`.
pub open spec fn stably_sorted<T: Ranked>(s: Seq<T::V>, sorted: Seq<T::V>) -> bool {
    &&& in_order::<T>(sorted)
    &&& sorted.len() == s.len()
    &&& forall|x: T::V| #[trigger] ranked_with::<T>(sorted, x) == ranked_with::<T>(s, x)
}

/// Puts `e` in front of the first element that it goes before or with.
#[verifier::spinoff_prover]
proof fn insertion<T: Ranked>(s: Seq<T::V>, sorted: Seq<T::V>, e: T::V, at: int)
    requires
        stably_sorted::<T>(s, sorted),
        0 <= at <= sorted.len(),
        forall|i: int| 0 <= i < at ==> !T::before_or_with(e, #[trigger] sorted[i]),
        at < sorted.len() ==> T::before_or_with(e, sorted[at]),
    ensures
        stably_sorted::<T>(seq![e] + s, sorted.insert(at, e)),
{
    let next = sorted.insert(at, e);
    assert forall|i: int, j: int| 0 <= i < j < next.len() implies T::before_or_with(
        next[i],
        next[j],
    ) by {
        let old_i = if i < at {
            i
        } else {
            i - 1
        };
        let old_j = if j < at {
            j
        } else {
            j - 1
        };
        if i == at {
            assert(next[i] == e && next[j] == sorted[old_j]);
            if old_j > at {
                assert(T::before_or_with(sorted[at], sorted[old_j]));
                T::ranks_are_transitive(e, sorted[at], sorted[old_j]);
            }
        } else if j == at {
            assert(next[i] == sorted[old_i] && next[j] == e);
            T::ranks_are_total(e, sorted[old_i]);
        } else {
            assert(next[i] == sorted[old_i] && next[j] == sorted[old_j]);
        }
    }
    let a = sorted.take(at);
    let b = sorted.skip(at);
    assert(next =~= a + (seq![e] + b));
    assert(sorted =~= a + b);
    assert forall|x: T::V| #[trigger] ranked_with::<T>(next, x) == ranked_with::<T>(
        seq![e] + s,
        x,
    ) by {
        let p = |y: T::V| same_rank::<T>(y, x);
        Seq::filter_distributes_over_add(a, seq![e] + b, p);
        Seq::filter_distributes_over_add(seq![e], b, p);
        Seq::filter_distributes_over_add(a, b, p);
        Seq::filter_distributes_over_add(seq![e], s, p);
        assert(ranked_with::<T>(sorted, x) == ranked_with::<T>(s, x));
        if p(e) {
            assert forall|i: int| 0 <= i < a.len() implies !p(#[trigger] a[i]) by {
                assert(a[i] == sorted[i]);
                if p(a[i]) {
                    T::ranks_are_transitive(e, x, a[i]);
                }
            }
            nothing_picked(a, p);
            assert(a.filter(p) + (seq![e].filter(p) + b.filter(p)) =~= seq![e].filter(p) + (
            a.filter(p) + b.filter(p)));
        } else {
            assert(seq![e].filter(p) =~= Seq::<T::V>::empty()) by {
                nothing_picked(seq![e], p);
            }
            assert(a.filter(p) + (seq![e].filter(p) + b.filter(p)) =~= seq![e].filter(p) + (
            a.filter(p) + b.filter(p)));
        }
    }
}

/// Where no element satisfies the condition, none is picked.
proof fn nothing_picked<A>(s: Seq<A>, p: spec_fn(A) -> bool)
    requires
        forall|i: int| 0 <= i < s.len() ==> !p(#[trigger] s[i]),
    ensures
        s.filter(p) == Seq::<A>::empty(),
    decreases s.len(),
{
    reveal(Seq::filter);
    if s.len() > 0 {
        let rest = s.drop_last();
        assert forall|i: int| 0 <= i < rest.len() implies !p(#[trigger] rest[i]) by {
            assert(rest[i] == s[i]);
        }
        assert(!p(s[s.len() - 1]));
        nothing_picked(rest, p);
    }
}

/// The elements in order; what shares a rank keeps its order.
#[verifier::spinoff_prover]
pub fn sort<T: Ranked>(v: Vec<T>) -> (r: Vec<T>)
    ensures
        stably_sorted::<T>(views(v@), views(r@)),
{
    let ghost all = views(v@);
    let mut v = v;
    let mut r: Vec<T> = Vec::new();
    assert(all.skip(v@.len() as int) =~= views(r@));
    while v.len() > 0
        invariant
            v@.len() <= all.len(),
            forall|i: int| 0 <= i < v@.len() ==> (#[trigger] v@[i])@ == all[i],
            stably_sorted::<T>(all.skip(v@.len() as int), views(r@)),
        decreases v.len(),
    {
        let ghost before = r@;
        let ghost n = v@.len() as int;
        if let Some(e) = v.pop() {
            let mut at: usize = 0;
            while at < r.len() && !e.goes_before_or_with(&r[at])
                invariant
                    at <= r.len(),
                    r@ == before,
                    forall|i: int|
                        0 <= i < at ==> !T::before_or_with(e@, #[trigger] views(before)[i]),
                ensures
                    at <= r.len(),
                    forall|i: int|
                        0 <= i < at ==> !T::before_or_with(e@, #[trigger] views(before)[i]),
                    at < r.len() ==> T::before_or_with(e@, views(before)[at as int]),
                decreases r.len() - at,
            {
                assert(views(before)[at as int] == before[at as int]@);
                at = at + 1;
            }
            proof {
                insertion::<T>(all.skip(n), views(before), e@, at as int);
            }
            r.insert(at, e);
            assert(views(r@) =~= views(before).insert(at as int, e@));
            assert(all.skip(n - 1) =~= seq![e@] + all.skip(n));
        }
    }
    assert(all.skip(0) =~= all);
    r
}

/// What shares a rank with `x`: the first element, where it does, and those of the rest.
#[verifier::spinoff_prover]
proof fn first_and_rest<T: Ranked>(s: Seq<T::V>, x: T::V)
    requires
        s.len() > 0,
    ensures
        same_rank::<T>(s[0], x) ==> ranked_with::<T>(s, x) == seq![s[0]] + ranked_with::<T>(
            s.drop_first(),
            x,
        ),
        !same_rank::<T>(s[0], x) ==> ranked_with::<T>(s, x) == ranked_with::<T>(
            s.drop_first(),
            x,
        ),
{
    let p = |e: T::V| same_rank::<T>(e, x);
    let first = seq![s[0]];
    assert(s =~= first + s.drop_first());
    Seq::filter_distributes_over_add(first, s.drop_first(), p);
    reveal(Seq::filter);
    assert(first.drop_last() =~= Seq::<T::V>::empty());
    assert(first.drop_last().filter(p) =~= Seq::<T::V>::empty());
    if p(s[0]) {
        assert(first.filter(p) =~= first);
    } else {
        assert(first.filter(p) =~= Seq::<T::V>::empty());
        assert(first.filter(p) + s.drop_first().filter(p) =~= s.drop_first().filter(p));
    }
}

/// Two sequences in order that hold the same under every rank are the same.
#[verifier::spinoff_prover]
proof fn same_order<T: Ranked>(a: Seq<T::V>, b: Seq<T::V>)
    requires
        in_order::<T>(a),
        in_order::<T>(b),
        forall|x: T::V| #[trigger] ranked_with::<T>(a, x) == ranked_with::<T>(b, x),
    ensures
        a == b,
    decreases a.len(),
{
    if a.len() == 0 {
        if b.len() > 0 {
            T::ranks_are_total(b[0], b[0]);
            first_and_rest::<T>(b, b[0]);
            reveal(Seq::filter);
            assert(ranked_with::<T>(a, b[0]).len() == 0);
        }
        assert(a =~= b);
    } else if b.len() == 0 {
        T::ranks_are_total(a[0], a[0]);
        first_and_rest::<T>(a, a[0]);
        reveal(Seq::filter);
        assert(ranked_with::<T>(b, a[0]).len() == 0);
    } else {
        first_goes_first::<T>(a, b);
        first_goes_first::<T>(b, a);
        T::ranks_are_total(a[0], a[0]);
        first_and_rest::<T>(a, a[0]);
        first_and_rest::<T>(b, a[0]);
        assert(ranked_with::<T>(a, a[0])[0] == a[0]);
        assert(ranked_with::<T>(b, a[0])[0] == b[0]);
        let ra = a.drop_first();
        let rb = b.drop_first();
        assert forall|x: T::V| #[trigger] ranked_with::<T>(ra, x) == ranked_with::<T>(rb, x) by {
            first_and_rest::<T>(a, x);
            first_and_rest::<T>(b, x);
            assert(ranked_with::<T>(a, x) == ranked_with::<T>(b, x));
            if same_rank::<T>(a[0], x) {
                assert(ranked_with::<T>(ra, x) =~= ranked_with::<T>(a, x).drop_first());
                assert(ranked_with::<T>(rb, x) =~= ranked_with::<T>(b, x).drop_first());
            }
        }
        assert forall|i: int, j: int| 0 <= i < j < ra.len() implies T::before_or_with(
            ra[i],
            ra[j],
        ) by {
            assert(T::before_or_with(a[i + 1], a[j + 1]));
        }
        assert forall|i: int, j: int| 0 <= i < j < rb.len() implies T::before_or_with(
            rb[i],
            rb[j],
        ) by {
            assert(T::before_or_with(b[i + 1], b[j + 1]));
        }
        same_order::<T>(ra, rb);
        assert(a =~= seq![a[0]] + ra);
        assert(b =~= seq![b[0]] + rb);
    }
}

/// The first element of one goes before or with the first of the other.
#[verifier::spinoff_prover]
proof fn first_goes_first<T: Ranked>(a: Seq<T::V>, b: Seq<T::V>)
    requires
        a.len() > 0,
        b.len() > 0,
        in_order::<T>(a),
        ranked_with::<T>(a, b[0]) == ranked_with::<T>(b, b[0]),
    ensures
        T::before_or_with(a[0], b[0]),
{
    let p = |e: T::V| same_rank::<T>(e, b[0]);
    T::ranks_are_total(b[0], b[0]);
    first_and_rest::<T>(b, b[0]);
    if forall|i: int| 0 <= i < a.len() ==> !p(#[trigger] a[i]) {
        nothing_picked(a, p);
    }
    let i = choose|i: int| 0 <= i < a.len() && p(#[trigger] a[i]);
    if i > 0 {
        assert(T::before_or_with(a[0], a[i]));
        T::ranks_are_transitive(a[0], a[i], b[0]);
    }
}

/// A sequence has one stable order: sorting it again gives the same.
pub proof fn sorting_is_unique<T: Ranked>(s: Seq<T::V>, a: Seq<T::V>, b: Seq<T::V>)
    requires
        stably_sorted::<T>(s, a),
        stably_sorted::<T>(s, b),
    ensures
        a == b,
{
    assert forall|x: T::V| #[trigger] ranked_with::<T>(a, x) == ranked_with::<T>(b, x) by {
        assert(ranked_with::<T>(a, x) == ranked_with::<T>(s, x));
    }
    same_order::<T>(a, b);
}

} // verus!
