//! Facts about sequences that the loops of the library rely on.

use vstd::prelude::*;

verus! {

/// Filtering a prefix one element longer adds that element when it passes.
pub proof fn lemma_filter_take_step<A>(s: Seq<A>, pred: spec_fn(A) -> bool, i: int)
    requires
        0 <= i < s.len(),
    ensures
        s.take(i + 1).filter(pred) == if pred(s[i]) {
            s.take(i).filter(pred).push(s[i])
        } else {
            s.take(i).filter(pred)
        },
{
    assert(s.take(i + 1) =~= s.take(i).push(s[i]));
    s.take(i).lemma_filter_push(s[i], pred);
}

/// Filter-mapping a prefix one element longer adds what the element maps to.
pub proof fn lemma_filter_map_take_step<A, B>(s: Seq<A>, f: spec_fn(A) -> Option<B>, i: int)
    requires
        0 <= i < s.len(),
    ensures
        s.take(i + 1).filter_map(f) == match f(s[i]) {
            Some(b) => s.take(i).filter_map(f).push(b),
            None => s.take(i).filter_map(f),
        },
{
    assert(s.take(i + 1).drop_last() =~= s.take(i));
    assert(s.take(i + 1).last() == s[i]);
    match f(s[i]) {
        Some(b) => { assert(s.take(i).filter_map(f) + seq![b] =~= s.take(i).filter_map(f).push(b)); },
        None => {},
    }
}

/// The whole of a sequence is its longest prefix.
pub proof fn lemma_take_all<A>(s: Seq<A>)
    ensures
        s.take(s.len() as int) == s,
{
    assert(s.take(s.len() as int) =~= s);
}

} // verus!

verus! {

/// Moves the items of `b` to the end of `a`.
pub fn append_vec<T: DeepView>(a: &mut Vec<T>, b: Vec<T>)
    ensures
        final(a).deep_view() == old(a).deep_view() + b.deep_view(),
{
    let ghost before = a.deep_view();
    let ghost added = b.deep_view();
    let mut b = b;
    a.append(&mut b);
    assert(a.deep_view() =~= before + added);
}

} // verus!

verus! {

/// Filtering by a predicate and by its negation splits a sequence: the two
/// parts hold, together, each element as often as the sequence does.
pub proof fn lemma_filter_split<A>(s: Seq<A>, p: spec_fn(A) -> bool, q: spec_fn(A) -> bool)
    requires
        forall|a: A| #[trigger] q(a) == !p(a),
    ensures
        s.to_multiset() =~= s.filter(p).to_multiset().add(s.filter(q).to_multiset()),
        s.filter(p).len() + s.filter(q).len() == s.len(),
    decreases s.len(),
{
    broadcast use vstd::seq_lib::group_to_multiset_ensures;
    reveal(Seq::filter);
    if s.len() > 0 {
        let t = s.drop_last();
        let a = s.last();
        lemma_filter_split(t, p, q);
        assert(s =~= t.push(a));
        t.lemma_filter_push(a, p);
        t.lemma_filter_push(a, q);
    } else {
        assert(s.filter(p) =~= Seq::<A>::empty());
        assert(s.filter(q) =~= Seq::<A>::empty());
    }
}

/// What a filter keeps satisfies the predicate.
pub proof fn lemma_filter_all<A>(s: Seq<A>, p: spec_fn(A) -> bool)
    ensures
        forall|i: int| 0 <= i < s.filter(p).len() ==> p(#[trigger] s.filter(p)[i]),
{
    assert forall|i: int| 0 <= i < s.filter(p).len() implies p(#[trigger] s.filter(p)[i]) by {
        s.lemma_filter_pred(p, i);
    }
}

/// Filter-mapping what a filter keeps gives what filter-mapping the whole
/// sequence gives, where each element that the filter drops maps to nothing.
pub proof fn lemma_filter_map_after_filter<A, B>(s: Seq<A>, p: spec_fn(A) -> bool, f: spec_fn(A) -> Option<B>)
    requires
        forall|a: A| !p(a) ==> #[trigger] f(a) is None,
    ensures
        s.filter(p).filter_map(f) == s.filter_map(f),
    decreases s.len(),
{
    reveal(Seq::filter);
    if s.len() > 0 {
        let t = s.drop_last();
        let a = s.last();
        lemma_filter_map_after_filter(t, p, f);
        assert(s =~= t.push(a));
        t.lemma_filter_push(a, p);
        if p(a) {
            let kept = t.filter(p).push(a);
            assert(kept.drop_last() =~= t.filter(p));
            assert(kept.last() == a);
        }
    } else {
        assert(s.filter(p) =~= Seq::<A>::empty());
    }
}

} // verus!
