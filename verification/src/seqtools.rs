use vstd::prelude::*;

verus! {

/// Filtering past a pushed element keeps it exactly when the predicate holds.
pub proof fn lemma_filter_push<A>(s: Seq<A>, pred: spec_fn(A) -> bool, x: A)
    ensures
        s.push(x).filter(pred) == if pred(x) {
            s.filter(pred).push(x)
        } else {
            s.filter(pred)
        },
{
    reveal(Seq::filter);
    assert(s.push(x).drop_last() =~= s);
}

/// Every element of a filtered sequence satisfies the predicate and occurs in
/// the original sequence.
pub proof fn lemma_filter_members<A>(s: Seq<A>, pred: spec_fn(A) -> bool)
    ensures
        forall|k: int|
            0 <= k < s.filter(pred).len() ==> pred(#[trigger] s.filter(pred)[k]) && s.contains(
                s.filter(pred)[k],
            ),
    decreases s.len(),
{
    reveal(Seq::filter);
    if s.len() > 0 {
        let dl = s.drop_last();
        lemma_filter_members(dl, pred);
        assert forall|k: int|
            0 <= k < s.filter(pred).len() implies pred(#[trigger] s.filter(pred)[k]) && s.contains(
            s.filter(pred)[k],
        ) by {
            if k < dl.filter(pred).len() {
                assert(s.filter(pred)[k] == dl.filter(pred)[k]);
                let w = choose|i: int| 0 <= i < dl.len() && dl[i] == dl.filter(pred)[k];
                assert(s[w] == dl.filter(pred)[k]);
            } else {
                assert(s.filter(pred)[k] == s.last());
                assert(s[s.len() - 1] == s.last());
            }
        }
    }
}

/// Two predicates that agree on every element give the same filtered sequence.
pub proof fn lemma_filter_congruent<A>(s: Seq<A>, p: spec_fn(A) -> bool, q: spec_fn(A) -> bool)
    requires
        forall|i: int| 0 <= i < s.len() ==> p(#[trigger] s[i]) == q(s[i]),
    ensures
        s.filter(p) == s.filter(q),
    decreases s.len(),
{
    reveal(Seq::filter);
    if s.len() > 0 {
        let dl = s.drop_last();
        assert(forall|i: int| 0 <= i < dl.len() ==> p(#[trigger] dl[i]) == q(dl[i]));
        lemma_filter_congruent(dl, p, q);
        assert(p(s.last()) == q(s.last()));
    }
}

/// A predicate that holds everywhere filters nothing out.
pub proof fn lemma_filter_all_true<A>(s: Seq<A>, pred: spec_fn(A) -> bool)
    requires
        forall|i: int| 0 <= i < s.len() ==> pred(#[trigger] s[i]),
    ensures
        s.filter(pred) == s,
    decreases s.len(),
{
    reveal(Seq::filter);
    if s.len() > 0 {
        let dl = s.drop_last();
        assert(forall|i: int| 0 <= i < dl.len() ==> pred(#[trigger] dl[i]));
        lemma_filter_all_true(dl, pred);
        assert(s.filter(pred) =~= s);
    }
}

/// Filtering twice is filtering once by the conjunction.
pub proof fn lemma_filter_filter<A>(
    s: Seq<A>,
    p: spec_fn(A) -> bool,
    q: spec_fn(A) -> bool,
    pq: spec_fn(A) -> bool,
)
    requires
        forall|x: A| #[trigger] pq(x) == (p(x) && q(x)),
    ensures
        s.filter(p).filter(q) == s.filter(pq),
    decreases s.len(),
{
    reveal(Seq::filter);
    if s.len() > 0 {
        let dl = s.drop_last();
        lemma_filter_filter(dl, p, q, pq);
        if p(s.last()) {
            lemma_filter_push(dl.filter(p), q, s.last());
        }
    }
}

/// A predicate that holds nowhere filters everything out.
pub proof fn lemma_filter_none<A>(s: Seq<A>, pred: spec_fn(A) -> bool)
    requires
        forall|i: int| 0 <= i < s.len() ==> !pred(#[trigger] s[i]),
    ensures
        s.filter(pred) == Seq::<A>::empty(),
    decreases s.len(),
{
    reveal(Seq::filter);
    if s.len() > 0 {
        let dl = s.drop_last();
        assert(forall|i: int| 0 <= i < dl.len() ==> !pred(#[trigger] dl[i]));
        lemma_filter_none(dl, pred);
    }
}

/// When exactly one element satisfies the predicate, the filter keeps exactly
/// that element.
pub proof fn lemma_filter_single_match<A>(s: Seq<A>, pred: spec_fn(A) -> bool, w: int)
    requires
        0 <= w < s.len(),
        pred(s[w]),
        forall|i: int| 0 <= i < s.len() && i != w ==> !pred(#[trigger] s[i]),
    ensures
        s.filter(pred) == seq![s[w]],
    decreases s.len(),
{
    reveal(Seq::filter);
    let dl = s.drop_last();
    if w == s.len() - 1 {
        assert(forall|i: int| 0 <= i < dl.len() ==> !pred(#[trigger] dl[i]));
        lemma_filter_none(dl, pred);
        assert(s.filter(pred) =~= seq![s[w]]);
    } else {
        assert(forall|i: int| 0 <= i < dl.len() && i != w ==> !pred(#[trigger] dl[i]));
        lemma_filter_single_match(dl, pred, w);
        assert(s.filter(pred) =~= seq![s[w]]);
    }
}

/// Filtering keeps keys pairwise distinct.
pub proof fn lemma_filter_distinct_keys<A>(
    s: Seq<A>,
    pred: spec_fn(A) -> bool,
    key: spec_fn(A) -> u64,
)
    requires
        forall|i: int, j: int| 0 <= i < j < s.len() ==> key(#[trigger] s[i]) != key(#[trigger] s[j]),
    ensures
        forall|i: int, j: int|
            0 <= i < j < s.filter(pred).len() ==> key(#[trigger] s.filter(pred)[i]) != key(
                #[trigger] s.filter(pred)[j],
            ),
    decreases s.len(),
{
    reveal(Seq::filter);
    if s.len() > 0 {
        let dl = s.drop_last();
        lemma_filter_distinct_keys(dl, pred, key);
        lemma_filter_members(dl, pred);
        if pred(s.last()) {
            assert forall|i: int, j: int|
                0 <= i < j < s.filter(pred).len() implies key(#[trigger] s.filter(pred)[i]) != key(
                #[trigger] s.filter(pred)[j],
            ) by {
                if j == s.filter(pred).len() - 1 {
                    let w = choose|m: int| 0 <= m < dl.len() && dl[m] == dl.filter(pred)[i];
                    assert(s[w] == dl.filter(pred)[i]);
                    assert(key(s[w]) != key(s[s.len() - 1]));
                }
            }
        }
    }
}

} // verus!
