//! Display order: entries sorted by show title.
use crate::types::FrontendAnimeEntry;
use vstd::multiset::Multiset;
use vstd::prelude::*;
use vstd::seq_lib::{to_multiset_build, to_multiset_insert, to_multiset_len};

verus! {

/// `a` comes no later than `b` in code-point order, as `String`'s `Ord` compares.
pub open spec fn text_le(a: Seq<char>, b: Seq<char>) -> bool
    decreases a.len(),
{
    if a.len() == 0 {
        true
    } else if b.len() == 0 {
        false
    } else if a[0] != b[0] {
        a[0] < b[0]
    } else {
        text_le(a.drop_first(), b.drop_first())
    }
}

proof fn lemma_text_le_total(a: Seq<char>, b: Seq<char>)
    ensures
        text_le(a, b) || text_le(b, a),
    decreases a.len(),
{
    if a.len() > 0 && b.len() > 0 && a[0] == b[0] {
        lemma_text_le_total(a.drop_first(), b.drop_first());
    }
}

proof fn lemma_text_le_trans(a: Seq<char>, b: Seq<char>, c: Seq<char>)
    requires
        text_le(a, b),
        text_le(b, c),
    ensures
        text_le(a, c),
    decreases a.len(),
{
    if a.len() > 0 && b.len() > 0 && c.len() > 0 && a[0] == b[0] && b[0] == c[0] {
        lemma_text_le_trans(a.drop_first(), b.drop_first(), c.drop_first());
    }
}

pub open spec fn titles_sorted(s: Seq<FrontendAnimeEntry>) -> bool {
    forall|i: int, j: int| 0 <= i < j < s.len() ==> text_le(#[trigger] s[i].title@, #[trigger] s[j].title@)
}

fn title_le(a: &String, b: &String) -> (r: bool)
    ensures
        r == text_le(a@, b@),
{
    let x = crate::text::chars_of(a.as_str());
    let y = crate::text::chars_of(b.as_str());
    let mut i: usize = 0;
    assert(x@.subrange(0, x@.len() as int) =~= x@);
    assert(y@.subrange(0, y@.len() as int) =~= y@);
    while i < x.len() && i < y.len() && x[i] == y[i]
        invariant
            i <= x.len(),
            i <= y.len(),
            text_le(x@, y@) == text_le(x@.subrange(i as int, x@.len() as int), y@.subrange(i as int, y@.len() as int)),
        decreases x.len() - i,
    {
        assert(x@.subrange(i as int, x@.len() as int).drop_first() =~= x@.subrange(i + 1, x@.len() as int));
        assert(y@.subrange(i as int, y@.len() as int).drop_first() =~= y@.subrange(i + 1, y@.len() as int));
        i = i + 1;
    }
    if i == x.len() {
        true
    } else if i == y.len() {
        false
    } else {
        x[i] < y[i]
    }
}

/// The entries sorted by title; equal titles keep their order.
pub fn sort_by_title(v: Vec<FrontendAnimeEntry>) -> (r: Vec<FrontendAnimeEntry>)
    ensures
        titles_sorted(r@),
        r@.to_multiset() == v@.to_multiset(),
        forall|x: FrontendAnimeEntry| r@.contains(x) <==> v@.contains(x),
{
    let ghost orig = v@;
    let mut input = v;
    let mut out: Vec<FrontendAnimeEntry> = Vec::new();
    proof {
        assert(out@.to_multiset() =~= Multiset::empty()) by {
            to_multiset_len(out@);
        }
    }
    while input.len() > 0
        invariant
            titles_sorted(out@),
            out@.to_multiset().add(input@.to_multiset()) == orig.to_multiset(),
        decreases input@.len(),
    {
        let ghost before_in = input@;
        let x = input.remove(0);
        proof {
            assert(before_in =~= seq![x] + input@);
            vstd::seq_lib::lemma_multiset_commutative(seq![x], input@);
            to_multiset_build(Seq::<FrontendAnimeEntry>::empty(), x);
            assert(seq![x] =~= Seq::<FrontendAnimeEntry>::empty().push(x));
            to_multiset_len(Seq::<FrontendAnimeEntry>::empty());
            assert(Seq::<FrontendAnimeEntry>::empty().to_multiset() =~= Multiset::empty());
        }
        let mut p: usize = 0;
        while p < out.len() && title_le(&out[p].title, &x.title)
            invariant
                p <= out@.len(),
                forall|k: int| 0 <= k < p ==> text_le(#[trigger] out@[k].title@, x.title@),
            decreases out@.len() - p,
        {
            p = p + 1;
        }
        let ghost before_out = out@;
        proof {
            if p < out@.len() {
                lemma_text_le_total(out@[p as int].title@, x.title@);
            }
        }
        out.insert(p, x);
        proof {
            to_multiset_insert(before_out, p as int, x);
            assert forall|i: int, j: int| 0 <= i < j < out@.len() implies text_le(#[trigger] out@[i].title@, #[trigger] out@[j].title@) by {
                if j < p {
                    assert(out@[i] == before_out[i] && out@[j] == before_out[j]);
                } else if j == p {
                    assert(out@[i] == before_out[i]);
                } else if i == p {
                    assert(out@[j] == before_out[j - 1]);
                    if p < before_out.len() {
                        if j - 1 > p {
                            lemma_text_le_trans(x.title@, before_out[p as int].title@, before_out[j - 1].title@);
                        }
                    }
                } else if i < p {
                    assert(out@[i] == before_out[i] && out@[j] == before_out[j - 1]);
                } else {
                    assert(out@[i] == before_out[i - 1] && out@[j] == before_out[j - 1]);
                }
            }
        }
    }
    proof {
        to_multiset_len(input@);
        assert(input@.to_multiset() =~= Multiset::empty());
    }
    assert(out@.to_multiset().add(Multiset::empty()) =~= out@.to_multiset());
    assert forall|x: FrontendAnimeEntry| out@.contains(x) <==> orig.contains(x) by {
        vstd::seq_lib::to_multiset_contains(out@, x);
        vstd::seq_lib::to_multiset_contains(orig, x);
    }
    out
}

} // verus!
