//! Stable ordering of requested order lines by product id.
//!
//! Every order transaction locks its products in ascending id order, so two
//! concurrent orders touching the same products always lock them in the same
//! order and cannot deadlock on each other.
use vstd::prelude::*;
use vstd::seq_lib::{to_multiset_build, to_multiset_insert};

verus! {

/// The lines whose product id is `k`.
pub open spec fn with_product(k: u128) -> spec_fn((u128, i32)) -> bool {
    |x: (u128, i32)| x.0 == k
}

/// Product ids never decrease along the sequence.
pub open spec fn sorted_by_product(s: Seq<(u128, i32)>) -> bool {
    forall|i: int, j: int| 0 <= i < j < s.len() ==> s[i].0 <= s[j].0
}

/// For every product id, the lines with that id appear in the same relative
/// order in both sequences (and nothing else differs but the interleaving).
pub open spec fn same_lines_per_product(a: Seq<(u128, i32)>, b: Seq<(u128, i32)>) -> bool {
    forall|k: u128| #[trigger] a.filter(with_product(k)) == b.filter(with_product(k))
}

proof fn lemma_filter_none(s: Seq<(u128, i32)>, k: u128)
    requires
        forall|j: int| 0 <= j < s.len() ==> s[j].0 != k,
    ensures
        s.filter(with_product(k)) == Seq::<(u128, i32)>::empty(),
    decreases s.len(),
{
    reveal(Seq::filter);
    if s.len() > 0 {
        let t = s.drop_last();
        assert forall|j: int| 0 <= j < t.len() implies t[j].0 != k by {
            assert(t[j] == s[j]);
        }
        lemma_filter_none(t, k);
    }
}

/// Inserting `x` after every line with a smaller or equal id and before every
/// line with a larger id appends `x` to its own product's lines.
proof fn lemma_insert_keeps_lines(out: Seq<(u128, i32)>, p: int, x: (u128, i32), k: u128)
    requires
        0 <= p <= out.len(),
        forall|j: int| 0 <= j < p ==> out[j].0 <= x.0,
        forall|j: int| p <= j < out.len() ==> out[j].0 > x.0,
    ensures
        out.insert(p, x).filter(with_product(k)) == if x.0 == k {
            out.filter(with_product(k)).push(x)
        } else {
            out.filter(with_product(k))
        },
{
    let pre = out.take(p);
    let post = out.skip(p);
    assert(out =~= pre + post);
    assert(out.insert(p, x) =~= pre.push(x) + post);
    Seq::filter_distributes_over_add(pre, post, with_product(k));
    Seq::filter_distributes_over_add(pre.push(x), post, with_product(k));
    pre.lemma_filter_push(x, with_product(k));
    if x.0 == k {
        assert forall|j: int| 0 <= j < post.len() implies post[j].0 != k by {
            assert(post[j] == out[p + j]);
        }
        lemma_filter_none(post, k);
        assert(pre.filter(with_product(k)) + post.filter(with_product(k)) =~= pre.filter(
            with_product(k),
        ));
        assert(pre.filter(with_product(k)).push(x) + post.filter(with_product(k)) =~= pre.filter(
            with_product(k),
        ).push(x));
    }
}

/// Orders the requested lines by product id, keeping lines with the same id
/// in their request order (a stable sort, as `sort_by_key`).
pub fn sort_by_product(items: &Vec<(u128, i32)>) -> (r: Vec<(u128, i32)>)
    ensures
        sorted_by_product(r@),
        r@.to_multiset() == items@.to_multiset(),
        same_lines_per_product(r@, items@),
{
    let mut out: Vec<(u128, i32)> = Vec::new();
    let mut i: usize = 0;
    assert(items@.take(0) =~= Seq::<(u128, i32)>::empty());
    while i < items.len()
        invariant
            0 <= i <= items.len(),
            sorted_by_product(out@),
            out@.to_multiset() == items@.take(i as int).to_multiset(),
            same_lines_per_product(out@, items@.take(i as int)),
        decreases items.len() - i,
    {
        let x = items[i];
        let mut p: usize = 0;
        while p < out.len() && out[p].0 <= x.0
            invariant
                0 <= p <= out.len(),
                forall|j: int| 0 <= j < p ==> out@[j].0 <= x.0,
            decreases out.len() - p,
        {
            p = p + 1;
        }
        let ghost old_out = out@;
        proof {
            assert forall|j: int| p <= j < old_out.len() implies old_out[j].0 > x.0 by {
                assert(old_out[p as int].0 > x.0);
                if j > p {
                    assert(old_out[p as int].0 <= old_out[j].0);
                }
            }
        }
        out.insert(p, x);
        proof {
            let before = items@.take(i as int);
            let after = items@.take(i + 1);
            assert(after =~= before.push(x));
            to_multiset_insert(old_out, p as int, x);
            to_multiset_build(before, x);
            assert forall|a: int, b: int| 0 <= a < b < out@.len() implies out@[a].0 <= out@[b].0 by {
                if a < p && b < p {
                } else if a < p && b == p {
                } else if a < p && b > p {
                    assert(out@[b] == old_out[b - 1]);
                } else if a == p {
                    assert(out@[b] == old_out[b - 1]);
                } else {
                    assert(out@[a] == old_out[a - 1]);
                    assert(out@[b] == old_out[b - 1]);
                }
            }
            assert forall|k: u128| #[trigger] out@.filter(with_product(k)) == after.filter(
                with_product(k),
            ) by {
                lemma_insert_keeps_lines(old_out, p as int, x, k);
                before.lemma_filter_push(x, with_product(k));
                assert(old_out.filter(with_product(k)) == before.filter(with_product(k)));
            }
        }
        i = i + 1;
    }
    assert(items@.take(items.len() as int) =~= items@);
    out
}

} // verus!
