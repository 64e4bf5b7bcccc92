//! Sequential bootstrap: the order in which instruments are solved.
//!
//! Instruments are solved one at a time in order of their pillar dates;
//! instruments sharing a pillar date keep the order they were added in.

use vstd::prelude::*;

use crate::date::{ymd_lt, Date};

verus! {

/// Instrument `i` with pillar `a` is solved before instrument `j` with
/// pillar `b`: earlier pillar first, and on equal pillars the one added
/// first.
pub open spec fn solved_before(a: (int, int, int), i: int, b: (int, int, int), j: int) -> bool {
    ymd_lt(a, b) || (a == b && i < j)
}

/// `order` lists the indices `0..n` once each, sorted by pillar date with
/// ties in insertion order.
pub open spec fn is_bootstrap_order(pillars: Seq<Date>, order: Seq<usize>) -> bool {
    &&& order.len() == pillars.len()
    &&& forall|i: int| 0 <= i < order.len() ==> (#[trigger] order[i]) < pillars.len()
    &&& forall|i: int, j: int|
        0 <= i < j < order.len() ==> solved_before(
            pillars[order[i] as int]@,
            order[i] as int,
            pillars[order[j] as int]@,
            order[j] as int,
        )
}

/// The order in which a sequential bootstrap solves instruments with the
/// given pillar dates: indices sorted by pillar date, stable for equal
/// dates.  Each index appears exactly once.
pub fn bootstrap_order(pillars: &Vec<Date>) -> (r: Vec<usize>)
    ensures
        is_bootstrap_order(pillars@, r@),
        forall|i: int, j: int| 0 <= i < j < r@.len() ==> r@[i] != r@[j],
{
    let n = pillars.len();
    let mut order: Vec<usize> = Vec::new();
    let mut k: usize = 0;
    while k < n
        invariant
            n == pillars@.len(),
            k <= n,
            order@.len() == k,
            forall|i: int| 0 <= i < order@.len() ==> (#[trigger] order@[i]) < k,
            forall|i: int, j: int|
                0 <= i < j < order@.len() ==> solved_before(
                    pillars@[order@[i] as int]@,
                    order@[i] as int,
                    pillars@[order@[j] as int]@,
                    order@[j] as int,
                ),
        decreases n - k,
    {
        // First position whose pillar is strictly after the new one.
        let mut p: usize = 0;
        while p < order.len() && !pillars[order[p]].is_after(&pillars[k])
            invariant
                n == pillars@.len(),
                k < n,
                p <= order@.len(),
                order@.len() == k,
                forall|i: int| 0 <= i < order@.len() ==> (#[trigger] order@[i]) < k,
                forall|i: int|
                    0 <= i < p ==> !ymd_lt(
                        pillars@[k as int]@,
                        pillars@[(#[trigger] order@[i]) as int]@,
                    ),
            decreases order@.len() - p,
        {
            p = p + 1;
        }
        let ghost old_order = order@;
        proof {
            assert forall|i: int| p <= i < old_order.len() implies ymd_lt(
                pillars@[k as int]@,
                pillars@[(#[trigger] old_order[i]) as int]@,
            ) by {
                if i > p {
                    // sorted: the pillar at p is at or before the one at i
                    assert(solved_before(
                        pillars@[old_order[p as int] as int]@,
                        old_order[p as int] as int,
                        pillars@[old_order[i] as int]@,
                        old_order[i] as int,
                    ));
                }
            }
        }
        order.insert(p, k);
        proof {
            assert forall|i: int, j: int|
                0 <= i < j < order@.len() implies solved_before(
                pillars@[order@[i] as int]@,
                order@[i] as int,
                pillars@[order@[j] as int]@,
                order@[j] as int,
            ) by {
                if j < p {
                    assert(order@[i] == old_order[i] && order@[j] == old_order[j]);
                } else if j == p {
                    assert(order@[i] == old_order[i]);
                    assert(!ymd_lt(pillars@[k as int]@, pillars@[old_order[i] as int]@));
                } else if i == p {
                    assert(order@[j] == old_order[j - 1]);
                } else if i < p {
                    assert(order@[i] == old_order[i] && order@[j] == old_order[j - 1]);
                    assert(!ymd_lt(pillars@[k as int]@, pillars@[old_order[i] as int]@));
                    assert(ymd_lt(pillars@[k as int]@, pillars@[old_order[j - 1] as int]@));
                } else {
                    assert(order@[i] == old_order[i - 1] && order@[j] == old_order[j - 1]);
                }
            }
        }
        k = k + 1;
    }
    proof {
        assert forall|i: int, j: int| 0 <= i < j < order@.len() implies order@[i] != order@[j] by {
            assert(solved_before(
                pillars@[order@[i] as int]@,
                order@[i] as int,
                pillars@[order@[j] as int]@,
                order@[j] as int,
            ));
        }
    }
    order
}

} // verus!
