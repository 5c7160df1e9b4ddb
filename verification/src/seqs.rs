//! Facts about filtered and flattened sequences.
use vstd::prelude::*;

verus! {

/// A filter keeps a sequence whose elements all pass it.
pub proof fn lemma_filter_all<A>(s: Seq<A>, pred: spec_fn(A) -> bool)
    requires
        forall|i: int| 0 <= i < s.len() ==> pred(#[trigger] s[i]),
    ensures
        s.filter(pred) == s,
    decreases s.len(),
{
    reveal(Seq::filter);
    if s.len() > 0 {
        lemma_filter_all(s.drop_last(), pred);
        assert(s.drop_last().push(s.last()) =~= s);
    }
}

/// Nothing is left of a sequence whose elements all map to `None`.
pub proof fn lemma_filter_map_none<A, B>(s: Seq<A>, f: spec_fn(A) -> Option<B>)
    requires
        forall|i: int| 0 <= i < s.len() ==> f(#[trigger] s[i]) is None,
    ensures
        s.filter_map(f) == Seq::<B>::empty(),
    decreases s.len(),
{
    if s.len() > 0 {
        lemma_filter_map_none(s.drop_last(), f);
    }
}

/// What holds of every element holds of every element that a filter keeps,
/// and so does the filter.
pub proof fn lemma_filter_keeps<A>(s: Seq<A>, pred: spec_fn(A) -> bool, q: spec_fn(A) -> bool)
    requires
        forall|i: int| 0 <= i < s.len() ==> q(#[trigger] s[i]),
    ensures
        forall|i: int| 0 <= i < s.filter(pred).len() ==> q(#[trigger] s.filter(pred)[i]) && pred(s.filter(pred)[i]),
    decreases s.len(),
{
    reveal(Seq::filter);
    if s.len() > 0 {
        let before = s.drop_last();
        lemma_filter_keeps(before, pred, q);
        assert(q(s[s.len() - 1]));
        assert forall|i: int| 0 <= i < s.filter(pred).len() implies q(#[trigger] s.filter(pred)[i]) && pred(
            s.filter(pred)[i],
        ) by {
            if i < before.filter(pred).len() {
                assert(s.filter(pred)[i] == before.filter(pred)[i]);
            } else {
                assert(s.filter(pred)[i] == s.last());
            }
        }
    }
}

/// What holds of every value that `f` gives holds of every element of the
/// mapped sequence.
pub proof fn lemma_filter_map_keeps<A, B>(s: Seq<A>, f: spec_fn(A) -> Option<B>, q: spec_fn(B) -> bool)
    requires
        forall|i: int| 0 <= i < s.len() && f(#[trigger] s[i]) is Some ==> q(f(s[i])->0),
    ensures
        forall|i: int| 0 <= i < s.filter_map(f).len() ==> q(#[trigger] s.filter_map(f)[i]),
    decreases s.len(),
{
    if s.len() > 0 {
        let before = s.drop_last();
        assert forall|i: int| 0 <= i < before.len() && f(#[trigger] before[i]) is Some implies q(
            f(before[i])->0,
        ) by {
            assert(before[i] == s[i]);
        }
        lemma_filter_map_keeps(before, f, q);
        assert(s.last() == s[s.len() - 1]);
        assert forall|i: int| 0 <= i < s.filter_map(f).len() implies q(#[trigger] s.filter_map(f)[i]) by {
            if i < before.filter_map(f).len() {
                assert(s.filter_map(f)[i] == before.filter_map(f)[i]);
            } else {
                assert(s.filter_map(f)[i] == f(s.last())->0);
            }
        }
    }
}

/// What holds of every element of every part holds of every element of the
/// whole.
pub proof fn lemma_flatten_keeps<A>(parts: Seq<Seq<A>>, q: spec_fn(A) -> bool)
    requires
        forall|j: int, k: int| 0 <= j < parts.len() && 0 <= k < parts[j].len() ==> q(#[trigger] parts[j][k]),
    ensures
        forall|i: int| 0 <= i < parts.flatten().len() ==> q(#[trigger] parts.flatten()[i]),
    decreases parts.len(),
{
    if parts.len() > 0 {
        let rest = parts.drop_first();
        assert forall|j: int, k: int| 0 <= j < rest.len() && 0 <= k < rest[j].len() implies q(
            #[trigger] rest[j][k],
        ) by {
            assert(rest[j][k] == parts[j + 1][k]);
        }
        lemma_flatten_keeps(rest, q);
        assert forall|i: int| 0 <= i < parts.flatten().len() implies q(#[trigger] parts.flatten()[i]) by {
            if i < parts.first().len() {
                assert(parts.flatten()[i] == parts[0][i]);
            } else {
                assert(parts.flatten()[i] == rest.flatten()[i - parts.first().len()]);
            }
        }
    }
}

/// Nothing is left of parts that are all empty.
pub proof fn lemma_flatten_empty<A>(parts: Seq<Seq<A>>)
    requires
        forall|j: int| 0 <= j < parts.len() ==> (#[trigger] parts[j]).len() == 0,
    ensures
        parts.flatten() == Seq::<A>::empty(),
    decreases parts.len(),
{
    if parts.len() > 0 {
        let rest = parts.drop_first();
        assert forall|j: int| 0 <= j < rest.len() implies (#[trigger] rest[j]).len() == 0 by {
            assert(rest[j] == parts[j + 1]);
        }
        lemma_flatten_empty(rest);
        assert(parts.first() =~= Seq::<A>::empty());
        assert(parts.flatten() =~= Seq::<A>::empty());
    }
}

} // verus!
