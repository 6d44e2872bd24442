//! Ordering the mode list by the configured preference.

use crate::model::ModeSummary;
use crate::text::str_equal;
use vstd::prelude::*;

verus! {

/// Position of `id` in the preferred `order`, or `order.len()` when absent.
pub open spec fn rank(id: Seq<char>, order: Seq<String>) -> int
    decreases order.len(),
{
    if order.len() == 0 {
        0
    } else if order[0]@ == id {
        0
    } else {
        1 + rank(id, order.drop_first())
    }
}

/// `rank` lies between `0` and the length of `order`, and points at the
/// first entry equal to `id` when there is one.
pub proof fn lemma_rank_bounds(id: Seq<char>, order: Seq<String>)
    ensures
        0 <= rank(id, order) <= order.len(),
        rank(id, order) < order.len() ==> order[rank(id, order)]@ == id,
        forall|i: int| 0 <= i < rank(id, order) ==> (#[trigger] order[i])@ != id,
    decreases order.len(),
{
    if order.len() > 0 && order[0]@ != id {
        let t = order.drop_first();
        lemma_rank_bounds(id, t);
        assert forall|i: int| 0 <= i < rank(id, order) implies (#[trigger] order[i])@ != id by {
            if i > 0 {
                assert(order[i] == t[i - 1]);
            }
        }
    }
}

/// Computes [`rank`].
pub fn mode_rank(id: &str, order: &Vec<String>) -> (r: usize)
    ensures
        r == rank(id@, order@),
{
    proof {
        lemma_rank_bounds(id@, order@);
    }
    let mut i: usize = 0;
    while i < order.len()
        invariant
            i <= order.len(),
            forall|j: int| 0 <= j < i ==> (#[trigger] order@[j])@ != id@,
            0 <= rank(id@, order@) <= order@.len(),
            rank(id@, order@) < order@.len() ==> order@[rank(id@, order@)]@ == id@,
            forall|j: int| 0 <= j < rank(id@, order@) ==> (#[trigger] order@[j])@ != id@,
        decreases order.len() - i,
    {
        if str_equal(order[i].as_str(), id) {
            return i;
        }
        i = i + 1;
    }
    order.len()
}

/// The modes of `list` whose rank is `r`, in the order they were listed.
pub open spec fn with_rank(list: Seq<ModeSummary>, order: Seq<String>, r: int) -> Seq<ModeSummary> {
    list.filter(|m: ModeSummary| rank(m.id@, order) == r)
}

/// The modes of `list` with rank below `r`: first those of rank 0, then
/// those of rank 1, and so on, each group in its original order.
pub open spec fn ranked_below(list: Seq<ModeSummary>, order: Seq<String>, r: int) -> Seq<ModeSummary>
    decreases r,
{
    if r <= 0 {
        Seq::empty()
    } else {
        ranked_below(list, order, r - 1) + with_rank(list, order, r - 1)
    }
}

/// `list` stably sorted by rank: the preferred modes in the preferred order,
/// then the others in the order they were listed.
pub open spec fn ordered_modes(list: Seq<ModeSummary>, order: Seq<String>) -> Seq<ModeSummary> {
    ranked_below(list, order, order.len() + 1 as int)
}

/// Sorts mode summaries by the preferred order, keeping the listed order
/// among modes of equal rank.
pub fn order_modes(list: Vec<ModeSummary>, order: &Vec<String>) -> (r: Vec<ModeSummary>)
    ensures
        r@ == ordered_modes(list@, order@),
{
    let mut ranks: Vec<usize> = Vec::new();
    let mut i: usize = 0;
    while i < list.len()
        invariant
            i <= list.len(),
            ranks@.len() == i,
            forall|j: int| 0 <= j < i ==> ranks@[j] == rank((#[trigger] list@[j]).id@, order@),
        decreases list.len() - i,
    {
        let rk = mode_rank(list[i].id.as_str(), order);
        ranks.push(rk);
        i = i + 1;
    }
    let mut out: Vec<ModeSummary> = Vec::new();
    let mut r: usize = 0;
    while r < order.len()
        invariant
            r <= order.len(),
            ranks@.len() == list@.len(),
            forall|j: int| 0 <= j < list@.len() ==> ranks@[j] == rank((#[trigger] list@[j]).id@, order@),
            out@ == ranked_below(list@, order@, r as int),
        decreases order.len() - r,
    {
        append_rank(&mut out, &list, &ranks, order, r);
        r = r + 1;
    }
    append_rank(&mut out, &list, &ranks, order, r);
    out
}

/// Appends the modes of rank `r` to `out`, in the order they were listed.
fn append_rank(out: &mut Vec<ModeSummary>, list: &Vec<ModeSummary>, ranks: &Vec<usize>, order: &Vec<String>, r: usize)
    requires
        ranks@.len() == list@.len(),
        forall|j: int| 0 <= j < list@.len() ==> ranks@[j] == rank((#[trigger] list@[j]).id@, order@),
    ensures
        final(out)@ == old(out)@ + with_rank(list@, order@, r as int),
{
    let ghost before = out@;
    let ghost pred = |m: ModeSummary| rank(m.id@, order@) == r;
    let mut j: usize = 0;
    while j < list.len()
        invariant
            j <= list.len(),
            ranks@.len() == list@.len(),
            forall|k: int| 0 <= k < list@.len() ==> ranks@[k] == rank((#[trigger] list@[k]).id@, order@),
            pred == (|m: ModeSummary| rank(m.id@, order@) == r),
            out@ == before + list@.take(j as int).filter(pred),
        decreases list.len() - j,
    {
        proof {
            assert(list@.take(j + 1) =~= list@.take(j as int).push(list@[j as int]));
            list@.take(j as int).lemma_filter_push(list@[j as int], pred);
        }
        if ranks[j] == r {
            out.push(list[j].snapshot());
        }
        j = j + 1;
    }
    assert(list@.take(list.len() as int) =~= list@);
}

} // verus!
