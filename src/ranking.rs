//! Splitting scored candidates into the best ones and the rest.
use vstd::prelude::*;

verus! {

/// The largest score, or 0 when there is none.
pub open spec fn max_score(s: Seq<u32>) -> u32
    decreases s.len(),
{
    if s.len() == 0 {
        0
    } else {
        let m = max_score(s.drop_last());
        if s.last() > m {
            s.last()
        } else {
            m
        }
    }
}

/// The items whose flag is set, last item first.
pub open spec fn rev_pick<T>(items: Seq<T>, keep: Seq<bool>) -> Seq<T>
    decreases items.len(),
{
    if items.len() == 0 {
        Seq::empty()
    } else {
        let rest = rev_pick(items.drop_first(), keep.drop_first());
        if keep[0] {
            rest.push(items[0])
        } else {
            rest
        }
    }
}

pub open spec fn at_max(scores: Seq<u32>, m: u32) -> Seq<bool> {
    scores.map_values(|s: u32| s == m)
}

pub open spec fn below_max(scores: Seq<u32>, m: u32) -> Seq<bool> {
    scores.map_values(|s: u32| s != m)
}

/// The largest of `scores`, 0 for none.
pub fn highest(scores: &Vec<u32>) -> (m: u32)
    ensures
        m == max_score(scores@),
{
    let mut m: u32 = 0;
    let mut i: usize = 0;
    while i < scores.len()
        invariant
            i <= scores.len(),
            m == max_score(scores@.subrange(0, i as int)),
        decreases scores.len() - i,
    {
        assert(scores@.subrange(0, i + 1).drop_last() =~= scores@.subrange(0, i as int));
        if scores[i] > m {
            m = scores[i];
        }
        i = i + 1;
    }
    assert(scores@.subrange(0, scores.len() as int) =~= scores@);
    m
}

/// Moves the items whose score is the largest into the result, last first, and
/// leaves the others in `items`, last first too. Returns the largest score, 0
/// when there are no items.
pub fn split_best<T>(items: &mut Vec<T>, scores: &Vec<u32>) -> (r: (Vec<T>, u32))
    requires
        old(items)@.len() == scores@.len(),
    ensures
        r.1 == max_score(scores@),
        r.0@ == rev_pick(old(items)@, at_max(scores@, r.1)),
        final(items)@ == rev_pick(old(items)@, below_max(scores@, r.1)),
{
    let m = highest(scores);
    let ghost orig = items@;
    let ghost keep = at_max(scores@, m);
    let ghost drop = below_max(scores@, m);
    let mut best: Vec<T> = Vec::new();
    let mut rest: Vec<T> = Vec::new();
    let mut i: usize = items.len();
    while i > 0
        invariant
            i <= orig.len(),
            orig.len() == scores@.len(),
            keep == at_max(scores@, m),
            drop == below_max(scores@, m),
            items@ == orig.subrange(0, i as int),
            best@ == rev_pick(orig.subrange(i as int, orig.len() as int), keep.subrange(i as int, orig.len() as int)),
            rest@ == rev_pick(orig.subrange(i as int, orig.len() as int), drop.subrange(i as int, orig.len() as int)),
        decreases i,
    {
        let x = items.pop().unwrap();
        i = i - 1;
        let ghost suffix = orig.subrange(i as int, orig.len() as int);
        assert(suffix.drop_first() =~= orig.subrange(i + 1, orig.len() as int));
        assert(keep.subrange(i as int, orig.len() as int).drop_first() =~= keep.subrange(i + 1, orig.len() as int));
        assert(drop.subrange(i as int, orig.len() as int).drop_first() =~= drop.subrange(i + 1, orig.len() as int));
        assert(items@ =~= orig.subrange(0, i as int));
        if scores[i] == m {
            best.push(x);
        } else {
            rest.push(x);
        }
    }
    assert(orig.subrange(0, orig.len() as int) =~= orig);
    assert(keep.subrange(0, orig.len() as int) =~= keep);
    assert(drop.subrange(0, orig.len() as int) =~= drop);
    *items = rest;
    (best, m)
}

/// A largest score stays under any bound that every score stays under.
pub proof fn lemma_max_at_most(s: Seq<u32>, b: u32)
    requires
        forall|i: int| 0 <= i < s.len() ==> (#[trigger] s[i]) <= b,
    ensures
        max_score(s) <= b,
    decreases s.len(),
{
    if s.len() > 0 {
        assert forall|i: int| 0 <= i < s.drop_last().len() implies (#[trigger] s.drop_last()[i]) <= b by {
            assert(s.drop_last()[i] == s[i]);
        }
        lemma_max_at_most(s.drop_last(), b);
        assert(s.last() == s[s.len() - 1]);
    }
}

proof fn lemma_max_bounds(s: Seq<u32>)
    ensures
        forall|i: int| 0 <= i < s.len() ==> s[i] <= max_score(s),
        s.len() > 0 ==> exists|i: int| 0 <= i < s.len() && s[i] == max_score(s),
    decreases s.len(),
{
    if s.len() > 0 {
        lemma_max_bounds(s.drop_last());
        assert forall|i: int| 0 <= i < s.len() implies s[i] <= max_score(s) by {
            if i < s.len() - 1 {
                assert(s.drop_last()[i] == s[i]);
            }
        }
        if s.last() <= max_score(s.drop_last()) && s.len() > 1 {
            let j = choose|j: int| 0 <= j < s.drop_last().len() && s.drop_last()[j] == max_score(s.drop_last());
            assert(s[j] == max_score(s));
        }
    }
}

pub proof fn lemma_rev_pick_members<T>(items: Seq<T>, keep: Seq<bool>)
    requires
        items.len() == keep.len(),
    ensures
        forall|i: int| 0 <= i < items.len() && keep[i] ==> rev_pick(items, keep).contains(items[i]),
        forall|x: T| rev_pick(items, keep).contains(x) ==> exists|i: int| 0 <= i < items.len() && keep[i] && items[i] == x,
    decreases items.len(),
{
    if items.len() > 0 {
        let rest = rev_pick(items.drop_first(), keep.drop_first());
        lemma_rev_pick_members(items.drop_first(), keep.drop_first());
        assert forall|i: int| 0 <= i < items.len() && keep[i] implies rev_pick(items, keep).contains(items[i]) by {
            if i == 0 {
                assert(rev_pick(items, keep).last() == items[0]);
            } else {
                assert(items.drop_first()[i - 1] == items[i]);
                assert(keep.drop_first()[i - 1] == keep[i]);
                assert(rest.contains(items.drop_first()[i - 1]));
                let k = choose|k: int| 0 <= k < rest.len() && rest[k] == items[i];
                assert(rev_pick(items, keep)[k] == items[i]);
            }
        }
        assert forall|x: T| rev_pick(items, keep).contains(x) implies exists|i: int| 0 <= i < items.len() && keep[i] && items[i] == x by {
            let k = choose|k: int| 0 <= k < rev_pick(items, keep).len() && rev_pick(items, keep)[k] == x;
            if k < rest.len() {
                assert(rest[k] == x);
                assert(rest.contains(x));
                let j = choose|j: int| 0 <= j < items.drop_first().len() && keep.drop_first()[j] && items.drop_first()[j] == x;
                assert(keep.drop_first()[j] == keep[j + 1]);
                assert(items.drop_first()[j] == items[j + 1]);
            } else {
                assert(keep[0] && items[0] == x);
            }
        }
    }
}

/// Ties are kept whole: every candidate that reaches the largest score is among
/// the best, and every best candidate reaches it, so none that scores lower is.
pub proof fn lemma_best_is_every_top_scorer<T>(items: Seq<T>, scores: Seq<u32>)
    requires
        items.len() == scores.len(),
    ensures
        forall|i: int| 0 <= i < items.len() ==> scores[i] <= max_score(scores),
        forall|i: int| 0 <= i < items.len() && scores[i] == max_score(scores) ==>
            rev_pick(items, at_max(scores, max_score(scores))).contains(items[i]),
        forall|x: T| rev_pick(items, at_max(scores, max_score(scores))).contains(x) ==>
            exists|i: int| 0 <= i < items.len() && scores[i] == max_score(scores) && items[i] == x,
        items.len() > 0 ==> rev_pick(items, at_max(scores, max_score(scores))).len() > 0,
{
    lemma_max_bounds(scores);
    let keep = at_max(scores, max_score(scores));
    lemma_rev_pick_members(items, keep);
    assert forall|i: int| 0 <= i < items.len() && scores[i] == max_score(scores) implies
        rev_pick(items, keep).contains(items[i]) by {
        assert(keep[i]);
    }
    assert forall|x: T| rev_pick(items, keep).contains(x) implies
        exists|i: int| 0 <= i < items.len() && scores[i] == max_score(scores) && items[i] == x by {
        let i = choose|i: int| 0 <= i < items.len() && keep[i] && items[i] == x;
        assert(scores[i] == max_score(scores));
    }
    if items.len() > 0 {
        let i = choose|i: int| 0 <= i < scores.len() && scores[i] == max_score(scores);
        assert(keep[i]);
        assert(rev_pick(items, keep).contains(items[i]));
    }
}

} // verus!
