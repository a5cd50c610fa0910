//! Palette construction from colours that the caller has chosen.

use vstd::prelude::*;
use crate::color_bucket::ColorBucket;

verus! {

/// The cycle of `base`, `n` entries long: entry `i` is the colour at
/// position `i` modulo the length of `base`.
pub open spec fn alternating(base: Seq<ColorBucket>, n: nat) -> Seq<ColorBucket> {
    Seq::new(n, |i: int| base[i % (base.len() as int)])
}

/// Builds a palette of exactly `n` entries by cycling through `base`.
pub fn alternating_list(base: &Vec<ColorBucket>, n: usize) -> (list: Vec<ColorBucket>)
    requires
        base@.len() >= 1,
    ensures
        list@ == alternating(base@, n as nat),
        list@.len() == n,
{
    let mut list: Vec<ColorBucket> = Vec::new();
    let mut i: usize = 0;
    while i < n
        invariant
            base@.len() >= 1,
            i <= n,
            list@.len() == i,
            forall|j: int| 0 <= j < i ==> #[trigger] list@[j] == base@[j % (base@.len() as int)],
        decreases n - i,
    {
        list.push(base[i % base.len()]);
        i += 1;
    }
    assert(list@ =~= alternating(base@, n as nat));
    list
}

/// A cycle repeats with the period of its base, and every entry is one of
/// the base colours.
pub proof fn lemma_alternating_is_periodic(base: Seq<ColorBucket>, n: nat, i: int)
    requires
        base.len() >= 1,
        0 <= i,
        i + base.len() < n,
    ensures
        alternating(base, n)[i] == alternating(base, n)[i + base.len()],
        base.contains(alternating(base, n)[i]),
{
    let k = base.len() as int;
    assert((i + k) % k == i % k) by (nonlinear_arith)
        requires
            k >= 1,
            i >= 0,
    ;
    assert(0 <= i % k < k) by (nonlinear_arith)
        requires
            k >= 1,
            i >= 0,
    ;
}

} // verus!
