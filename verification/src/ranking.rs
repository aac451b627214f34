//! Stable sorting by rank.
//!
//! A type says how its values rank against each other; [`stable_sort`]
//! brings a list into ascending rank and leaves values of equal rank in the
//! order in which they came. Ranks are stated over the values' views, so
//! that contracts built on them speak of plain sequences.

use vstd::prelude::*;

verus! {

/// Values that can be ranked against each other.
///
/// `rank_le` is a total preorder on the views: any two are comparable, and
/// the relation is transitive. Different values may share a rank.
pub trait Ranked: DeepView + Sized {
    /// Whether `a` ranks no higher than `b`.
    spec fn rank_le(a: Self::V, b: Self::V) -> bool;

    /// Any two values are comparable.
    proof fn rank_le_is_total(a: Self::V, b: Self::V)
        ensures
            Self::rank_le(a, b) || Self::rank_le(b, a),
    ;

    /// What ranks no higher than a value ranks no higher than anything
    /// that value ranks no higher than.
    proof fn rank_le_is_transitive(a: Self::V, b: Self::V, c: Self::V)
        requires
            Self::rank_le(a, b),
            Self::rank_le(b, c),
        ensures
            Self::rank_le(a, c),
    ;

    /// Decides `rank_le` at run time.
    fn ranks_no_higher_than(&self, other: &Self) -> (r: bool)
        ensures
            r == Self::rank_le(self.deep_view(), other.deep_view()),
    ;
}

/// Every value ranks no higher than each value after it.
pub open spec fn is_sorted<T: Ranked>(s: Seq<T::V>) -> bool {
    forall|i: int, j: int| #![trigger s[i], s[j]] 0 <= i <= j < s.len() ==> T::rank_le(s[i], s[j])
}

/// The predicate "has the same rank as `x`".
pub open spec fn same_rank_as<T: Ranked>(x: T::V) -> spec_fn(T::V) -> bool {
    |e: T::V| T::rank_le(e, x) && T::rank_le(x, e)
}

/// The values of `s` that share the rank of `x`, in the order they have in `s`.
pub open spec fn peers<T: Ranked>(s: Seq<T::V>, x: T::V) -> Seq<T::V> {
    s.filter(same_rank_as::<T>(x))
}

/// `sorted` is `original` brought into ascending rank without reordering
/// values of equal rank.
pub open spec fn is_stable_sort_of<T: Ranked>(sorted: Seq<T::V>, original: Seq<T::V>) -> bool {
    &&& is_sorted::<T>(sorted)
    &&& forall|x: T::V| #[trigger] peers::<T>(sorted, x) == peers::<T>(original, x)
}

/// The index of the first value of `out` that ranks at least as high as
/// `x`, or the length of `out` if there is none.
pub open spec fn insertion_point<T: Ranked>(out: Seq<T::V>, x: T::V) -> int
    decreases out.len(),
{
    if out.len() == 0 || T::rank_le(x, out[0]) {
        0
    } else {
        1 + insertion_point::<T>(out.drop_first(), x)
    }
}

/// The stable sort of `s`: each value, from the last to the first, is
/// placed in front of the values that rank at least as high.
pub open spec fn sorted_by_rank<T: Ranked>(s: Seq<T::V>) -> Seq<T::V>
    decreases s.len(),
{
    if s.len() == 0 {
        s
    } else {
        let rest = sorted_by_rank::<T>(s.drop_first());
        rest.insert(insertion_point::<T>(rest, s[0]), s[0])
    }
}

/// The insertion point is the one index that has only lower-ranking values
/// in front of it and no lower-ranking value at it.
pub proof fn insertion_point_is_first_not_lower<T: Ranked>(out: Seq<T::V>, x: T::V, p: int)
    requires
        0 <= p <= out.len(),
        forall|j: int| 0 <= j < p ==> !T::rank_le(x, #[trigger] out[j]),
        p < out.len() ==> T::rank_le(x, out[p]),
    ensures
        insertion_point::<T>(out, x) == p,
    decreases out.len(),
{
    if out.len() > 0 && p > 0 {
        assert(!T::rank_le(x, out[0]));
        let rest = out.drop_first();
        assert forall|j: int| 0 <= j < p - 1 implies !T::rank_le(x, #[trigger] rest[j]) by {
            assert(rest[j] == out[j + 1]);
        }
        insertion_point_is_first_not_lower::<T>(rest, x, p - 1);
    }
}

proof fn lemma_insertion_point_bounds<T: Ranked>(out: Seq<T::V>, x: T::V)
    ensures
        0 <= insertion_point::<T>(out, x) <= out.len(),
        forall|j: int|
            0 <= j < insertion_point::<T>(out, x) ==> !T::rank_le(x, #[trigger] out[j]),
        insertion_point::<T>(out, x) < out.len() ==> T::rank_le(
            x,
            out[insertion_point::<T>(out, x)],
        ),
    decreases out.len(),
{
    if out.len() == 0 || T::rank_le(x, out[0]) {
    } else {
        let rest = out.drop_first();
        lemma_insertion_point_bounds::<T>(rest, x);
        let p = insertion_point::<T>(out, x);
        assert forall|j: int| 0 <= j < p implies !T::rank_le(x, #[trigger] out[j]) by {
            if j > 0 {
                assert(out[j] == rest[j - 1]);
            }
        }
        assert(p < out.len() ==> out[p] == rest[p - 1]);
    }
}

/// Placing `x` in a sorted sequence, in front of the first value that ranks
/// at least as high, keeps the sequence sorted and puts `x` first among its
/// peers.
proof fn lemma_place_in_front<T: Ranked>(out: Seq<T::V>, x: T::V, p: int, tail: Seq<T::V>)
    requires
        is_sorted::<T>(out),
        0 <= p <= out.len(),
        forall|j: int| 0 <= j < p ==> !T::rank_le(x, #[trigger] out[j]),
        p < out.len() ==> T::rank_le(x, out[p]),
        forall|y: T::V| #[trigger] peers::<T>(out, y) == peers::<T>(tail, y),
    ensures
        is_sorted::<T>(out.insert(p, x)),
        forall|y: T::V| #[trigger] peers::<T>(out.insert(p, x), y) == peers::<T>(seq![x] + tail, y),
{
    let placed = out.insert(p, x);
    assert forall|j: int| 0 <= j < p implies T::rank_le(#[trigger] out[j], x) by {
        T::rank_le_is_total(x, out[j]);
    }
    assert forall|j: int| p <= j < out.len() implies T::rank_le(x, #[trigger] out[j]) by {
        T::rank_le_is_transitive(x, out[p], out[j]);
    }
    T::rank_le_is_total(x, x);
    assert forall|i: int, j: int|
        #![trigger placed[i], placed[j]]
        0 <= i <= j < placed.len() implies T::rank_le(placed[i], placed[j]) by {
        if i < p && j > p {
            T::rank_le_is_transitive(out[i], x, out[j - 1]);
        }
    }
    let front = out.take(p);
    let back = out.skip(p);
    assert(out =~= front + back);
    assert(placed =~= front + (seq![x] + back));
    assert forall|y: T::V| #[trigger] peers::<T>(placed, y) == peers::<T>(seq![x] + tail, y) by {
        let pred = same_rank_as::<T>(y);
        Seq::filter_distributes_over_add(front, back, pred);
        Seq::filter_distributes_over_add(front, seq![x] + back, pred);
        back.lemma_filter_prepend(x, pred);
        tail.lemma_filter_prepend(x, pred);
        assert(peers::<T>(out, y) == peers::<T>(tail, y));
        if pred(x) {
            assert forall|j: int| 0 <= j < front.len() implies !pred(#[trigger] front[j]) by {
                if pred(front[j]) {
                    T::rank_le_is_transitive(x, y, front[j]);
                }
            }
            assert(front.all(|e: T::V| !pred(e)));
            front.lemma_all_neg_filter_empty(pred);
            assert(front.filter(pred) =~= Seq::<T::V>::empty());
            assert(placed.filter(pred) =~= seq![x] + out.filter(pred));
        } else {
            assert(placed.filter(pred) =~= out.filter(pred));
            assert((seq![x] + tail).filter(pred) =~= tail.filter(pred));
        }
    }
}

/// [`sorted_by_rank`] is a stable sort: its result is in ascending rank,
/// holds each value as often as the input does, and keeps values of equal
/// rank in their original order.
pub proof fn sorted_by_rank_is_stable_sort<T: Ranked>(s: Seq<T::V>)
    ensures
        is_stable_sort_of::<T>(sorted_by_rank::<T>(s), s),
        sorted_by_rank::<T>(s).to_multiset() == s.to_multiset(),
        sorted_by_rank::<T>(s).len() == s.len(),
    decreases s.len(),
{
    if s.len() > 0 {
        let tail = s.drop_first();
        let rest = sorted_by_rank::<T>(tail);
        let p = insertion_point::<T>(rest, s[0]);
        sorted_by_rank_is_stable_sort::<T>(tail);
        lemma_insertion_point_bounds::<T>(rest, s[0]);
        lemma_place_in_front::<T>(rest, s[0], p, tail);
        assert(seq![s[0]] + tail =~= s);
        vstd::seq_lib::to_multiset_insert(rest, p, s[0]);
        vstd::seq_lib::to_multiset_insert(tail, 0, s[0]);
        assert(tail.insert(0, s[0]) =~= s);
    }
}

/// The first value of a sorted list ranks no higher than any value of the
/// list it was sorted from.
pub proof fn sorted_by_rank_starts_lowest<T: Ranked>(s: Seq<T::V>, i: int)
    requires
        0 <= i < s.len(),
    ensures
        sorted_by_rank::<T>(s).len() == s.len(),
        T::rank_le(sorted_by_rank::<T>(s)[0], s[i]),
{
    let sorted = sorted_by_rank::<T>(s);
    sorted_by_rank_is_stable_sort::<T>(s);
    vstd::seq_lib::to_multiset_contains(s, s[i]);
    vstd::seq_lib::to_multiset_contains(sorted, s[i]);
    assert(s.contains(s[i]));
    assert(sorted.contains(s[i]));
    let k = choose|k: int| 0 <= k < sorted.len() && sorted[k] == s[i];
    assert(T::rank_le(sorted[0], sorted[k]));
}

/// Sorts `items` into ascending rank, keeping values of equal rank in their
/// original order.
pub fn stable_sort<T: Ranked>(items: Vec<T>) -> (sorted: Vec<T>)
    ensures
        sorted.deep_view() == sorted_by_rank::<T>(items.deep_view()),
{
    let ghost original = items.deep_view();
    let mut rest = items;
    let mut out: Vec<T> = Vec::new();
    proof {
        assert(original.skip(original.len() as int) =~= Seq::<T::V>::empty());
        assert(out.deep_view() =~= Seq::<T::V>::empty());
    }
    while rest.len() > 0
        invariant
            rest.deep_view() == original.take(rest.len() as int),
            rest.len() <= original.len(),
            out.deep_view() == sorted_by_rank::<T>(original.skip(rest.len() as int)),
        decreases rest.len(),
    {
        let ghost tail = original.skip(rest.len() as int);
        let ghost before = out.deep_view();
        let ghost rest_before = rest.deep_view();
        let x = rest.pop().unwrap();
        let mut p: usize = 0;
        while p < out.len() && !x.ranks_no_higher_than(&out[p])
            invariant
                p <= out.len(),
                before == out.deep_view(),
                forall|j: int| 0 <= j < p ==> !T::rank_le(x.deep_view(), #[trigger] before[j]),
            decreases out.len() - p,
        {
            p += 1;
        }
        proof {
            assert(x.deep_view() == rest_before[rest.len() as int]);
            insertion_point_is_first_not_lower::<T>(before, x.deep_view(), p as int);
            let grown = original.skip(rest.len() as int);
            assert(grown.drop_first() =~= tail);
            assert(grown[0] == x.deep_view());
            assert(rest.deep_view() =~= original.take(rest.len() as int));
        }
        out.insert(p, x);
        proof {
            assert(out.deep_view() =~= before.insert(p as int, x.deep_view()));
        }
    }
    proof {
        assert(original.skip(0) =~= original);
    }
    out
}

} // verus!
