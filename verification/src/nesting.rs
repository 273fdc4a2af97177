//! Nesting normalizer.
//!
//! The union oracle returns loops with no consistent orientation and may
//! leave near-zero-area artifacts behind.  The normalizer filters the
//! artifacts out, turns every loop counter-clockwise, then counts for
//! each loop how many strictly larger loops contain its representative
//! interior point: an odd count makes the loop a hole, to be traced
//! clockwise; an even count keeps it counter-clockwise.
//!
//! The counting itself is discrete; the numeric facts it rests on — the
//! area comparisons and the point-in-polygon answers — enter as boolean
//! vectors and matrices computed by the caller, so everything decided
//! here is decided exactly.

use vstd::prelude::*;
use crate::path::{PathLoop, loop_reversed, reverse_path};

verus! {

/// Both matrices are square of side `n`: entry `[j][i]` speaks of the
/// ordered loop pair `(j, i)`.
pub open spec fn square_matrix(m: Seq<Vec<bool>>, n: int) -> bool {
    &&& m.len() == n
    &&& forall|j: int| 0 <= j < n ==> #[trigger] m[j]@.len() == n
}

/// How many of the first `j` loops strictly enclose loop `i`: those that
/// are strictly larger and whose polygon contains loop `i`'s
/// representative point.
pub open spec fn count_enclosing(
    greater: Seq<Vec<bool>>,
    contains: Seq<Vec<bool>>,
    i: int,
    j: int,
) -> int
    decreases j,
{
    if j <= 0 {
        0
    } else {
        count_enclosing(greater, contains, i, j - 1) + (
        if j - 1 != i && greater[j - 1]@[i] && contains[j - 1]@[i] {
            1int
        } else {
            0int
        })
    }
}

/// Loop `i`'s nesting level: the number of strictly larger loops whose
/// polygon contains its representative interior point.
pub open spec fn spec_nesting_level(
    greater: Seq<Vec<bool>>,
    contains: Seq<Vec<bool>>,
    i: int,
) -> int {
    count_enclosing(greater, contains, i, greater.len() as int)
}

/// A loop that no other loop both exceeds in area and contains has
/// nesting level zero — in particular, every loop of a family of
/// pairwise disjoint shapes.
pub proof fn lemma_unenclosed_level_zero(
    greater: Seq<Vec<bool>>,
    contains: Seq<Vec<bool>>,
    i: int,
)
    requires
        forall|j: int|
            0 <= j < greater.len() && j != i ==> !(#[trigger] greater[j]@[i] && contains[j]@[i]),
    ensures
        spec_nesting_level(greater, contains, i) == 0,
{
    lemma_unenclosed_count_zero(greater, contains, i, greater.len() as int);
}

proof fn lemma_unenclosed_count_zero(
    greater: Seq<Vec<bool>>,
    contains: Seq<Vec<bool>>,
    i: int,
    j: int,
)
    requires
        j <= greater.len(),
        forall|k: int|
            0 <= k < greater.len() && k != i ==> !(#[trigger] greater[k]@[i] && contains[k]@[i]),
    ensures
        count_enclosing(greater, contains, i, j) == 0,
    decreases j,
{
    if j > 0 {
        lemma_unenclosed_count_zero(greater, contains, i, j - 1);
    }
}

/// A loop that nothing encloses comes out of the nesting pass exactly as
/// it went in: its level is zero, which is even, so it is not turned.
/// With pairwise disjoint shapes this holds of every loop, so disjoint
/// counter-clockwise loops all stay counter-clockwise at level zero.
pub proof fn lemma_unenclosed_loop_unchanged(
    r: Seq<PathLoop>,
    paths: Seq<PathLoop>,
    greater: Seq<Vec<bool>>,
    contains: Seq<Vec<bool>>,
    i: int,
)
    requires
        0 <= i < paths.len(),
        r.len() == paths.len(),
        forall|x: int|
            0 <= x < paths.len() ==> if spec_nesting_level(greater, contains, x) % 2 == 1 {
                loop_reversed(#[trigger] r[x], paths[x])
            } else {
                r[x] == paths[x]
            },
        forall|j: int|
            0 <= j < greater.len() && j != i ==> !(#[trigger] greater[j]@[i] && contains[j]@[i]),
    ensures
        r[i] == paths[i],
{
    lemma_unenclosed_level_zero(greater, contains, i);
}

/// Computes every loop's nesting level from the area-comparison matrix
/// (`greater[j][i]`: loop `j`'s area is strictly greater than loop
/// `i`'s) and the containment matrix (`contains[j][i]`: loop `j`'s
/// polygon contains loop `i`'s representative point).
pub fn nesting_levels(greater: &Vec<Vec<bool>>, contains: &Vec<Vec<bool>>) -> (r: Vec<usize>)
    requires
        square_matrix(greater@, greater@.len() as int),
        square_matrix(contains@, greater@.len() as int),
    ensures
        r@.len() == greater@.len(),
        forall|i: int|
            0 <= i < greater@.len() ==> #[trigger] r@[i] as int == spec_nesting_level(
                greater@,
                contains@,
                i,
            ),
{
    let n = greater.len();
    let mut r: Vec<usize> = Vec::new();
    let mut i: usize = 0;
    while i < n
        invariant
            n == greater@.len(),
            square_matrix(greater@, n as int),
            square_matrix(contains@, n as int),
            i <= n,
            r@.len() == i,
            forall|m: int|
                0 <= m < i ==> #[trigger] r@[m] as int == spec_nesting_level(
                    greater@,
                    contains@,
                    m,
                ),
        decreases n - i,
    {
        let mut level: usize = 0;
        let mut j: usize = 0;
        while j < n
            invariant
                n == greater@.len(),
                square_matrix(greater@, n as int),
                square_matrix(contains@, n as int),
                i < n,
                j <= n,
                level as int == count_enclosing(
                    greater@,
                    contains@,
                    i as int,
                    j as int,
                ),
                level <= j,
            decreases n - j,
        {
            if j != i && greater[j][i] && contains[j][i] {
                level = level + 1;
            }
            j = j + 1;
        }
        r.push(level);
        i = i + 1;
    }
    r
}

/// A loop is a hole exactly when its nesting level is odd.
pub fn hole_flags(levels: &Vec<usize>) -> (r: Vec<bool>)
    ensures
        r@.len() == levels@.len(),
        forall|i: int| 0 <= i < levels@.len() ==> #[trigger] r@[i] == (levels@[i] % 2 == 1),
{
    let mut r: Vec<bool> = Vec::new();
    let mut k: usize = 0;
    while k < levels.len()
        invariant
            k <= levels@.len(),
            r@.len() == k,
            forall|i: int| 0 <= i < k ==> #[trigger] r@[i] == (levels@[i] % 2 == 1),
        decreases levels@.len() - k,
    {
        r.push(levels[k] % 2 == 1);
        k = k + 1;
    }
    r
}

/// The loops selected by the filter, in their original order: those
/// among the first `n` whose flag is set.
pub open spec fn kept_prefix(paths: Seq<PathLoop>, keep: Seq<bool>, n: int) -> Seq<PathLoop>
    decreases n,
{
    if n <= 0 {
        Seq::empty()
    } else if keep[n - 1] {
        kept_prefix(paths, keep, n - 1).push(paths[n - 1])
    } else {
        kept_prefix(paths, keep, n - 1)
    }
}

/// Drops the loops whose flag is cleared — the near-zero-area artifacts
/// of the union — keeping the rest in order.
pub fn filter_kept(mut paths: Vec<PathLoop>, keep: &Vec<bool>) -> (r: Vec<PathLoop>)
    requires
        keep@.len() == paths@.len(),
    ensures
        r@ == kept_prefix(paths@, keep@, paths@.len() as int),
{
    let ghost orig = paths@;
    let n = paths.len();
    let mut r: Vec<PathLoop> = Vec::new();
    let mut k: usize = 0;
    while k < n
        invariant
            k <= n,
            n == orig.len(),
            keep@.len() == n,
            paths@ =~= orig.subrange(k as int, n as int),
            r@ == kept_prefix(orig, keep@, k as int),
        decreases n - k,
    {
        let p = paths.remove(0);
        proof {
            assert(p == orig[k as int]);
        }
        if keep[k] {
            r.push(p);
        }
        k = k + 1;
        proof {
            assert(paths@ =~= orig.subrange(k as int, n as int));
        }
    }
    r
}

/// Turns the flagged loops around and keeps the rest as they are.  Used
/// once to force every loop counter-clockwise (flags: negative signed
/// area) and once to turn the holes clockwise (flags: odd nesting
/// level).
pub fn orient_loops(mut paths: Vec<PathLoop>, flip: &Vec<bool>) -> (r: Vec<PathLoop>)
    requires
        flip@.len() == paths@.len(),
    ensures
        r@.len() == paths@.len(),
        forall|i: int|
            0 <= i < paths@.len() ==> if flip@[i] {
                loop_reversed(#[trigger] r@[i], paths@[i])
            } else {
                r@[i] == paths@[i]
            },
{
    let ghost orig = paths@;
    let n = paths.len();
    let mut r: Vec<PathLoop> = Vec::new();
    let mut k: usize = 0;
    while k < n
        invariant
            k <= n,
            n == orig.len(),
            flip@.len() == n,
            paths@ =~= orig.subrange(k as int, n as int),
            r@.len() == k,
            forall|i: int|
                0 <= i < k ==> if flip@[i] {
                    loop_reversed(#[trigger] r@[i], orig[i])
                } else {
                    r@[i] == orig[i]
                },
        decreases n - k,
    {
        let p = paths.remove(0);
        proof {
            assert(p == orig[k as int]);
        }
        if flip[k] {
            let rev = reverse_path(&p);
            r.push(rev);
        } else {
            r.push(p);
        }
        k = k + 1;
        proof {
            assert(paths@ =~= orig.subrange(k as int, n as int));
        }
    }
    r
}

/// The nesting pass is deterministic: any two outputs that resolve the
/// same loops against the same matrices agree on every loop, so repeated
/// calls of `apply_nesting` on identical input give identical output.
pub proof fn lemma_apply_nesting_deterministic(
    r1: Seq<PathLoop>,
    r2: Seq<PathLoop>,
    paths: Seq<PathLoop>,
    greater: Seq<Vec<bool>>,
    contains: Seq<Vec<bool>>,
)
    requires
        r1.len() == paths.len(),
        r2.len() == paths.len(),
        forall|i: int|
            0 <= i < paths.len() ==> if spec_nesting_level(greater, contains, i) % 2 == 1 {
                loop_reversed(#[trigger] r1[i], paths[i])
            } else {
                r1[i] == paths[i]
            },
        forall|i: int|
            0 <= i < paths.len() ==> if spec_nesting_level(greater, contains, i) % 2 == 1 {
                loop_reversed(#[trigger] r2[i], paths[i])
            } else {
                r2[i] == paths[i]
            },
    ensures
        forall|i: int|
            0 <= i < paths.len() ==> (#[trigger] r1[i]).0 == r2[i].0 && r1[i].1@ =~= r2[i].1@,
{
    assert forall|i: int| 0 <= i < paths.len() implies (#[trigger] r1[i]).0 == r2[i].0
        && r1[i].1@ =~= r2[i].1@ by {
        if spec_nesting_level(greater, contains, i) % 2 == 1 {
            crate::path::lemma_loop_reversed_unique(r1[i], r2[i], paths[i]);
        }
    }
}

/// Resolves hole/solid topology: computes every loop's nesting level
/// from the two matrices and turns exactly the odd-level loops around.
/// The caller hands loops already oriented counter-clockwise, so the
/// result traces solids counter-clockwise and holes clockwise.
pub fn apply_nesting(paths: Vec<PathLoop>, greater: &Vec<Vec<bool>>, contains: &Vec<Vec<bool>>) -> (r:
    Vec<PathLoop>)
    requires
        square_matrix(greater@, paths@.len() as int),
        square_matrix(contains@, paths@.len() as int),
    ensures
        r@.len() == paths@.len(),
        forall|i: int|
            0 <= i < paths@.len() ==> if spec_nesting_level(
                greater@,
                contains@,
                i,
            ) % 2 == 1 {
                loop_reversed(#[trigger] r@[i], paths@[i])
            } else {
                r@[i] == paths@[i]
            },
{
    let levels = nesting_levels(greater, contains);
    let flags = hole_flags(&levels);
    orient_loops(paths, &flags)
}

} // verus!
