//! Boolean union accumulator.
//!
//! The union of two closed-loop sets is computed by an outside curve
//! library; this module drives it, folding any number of loops into one
//! unioned set, left to right, one loop at a time.  The oracle's result
//! is a pure function of its two inputs, so the fold's outcome is pinned
//! exactly by the fold of that function over the input sequence.

use vstd::prelude::*;
use crate::path::PathLoop;

verus! {

/// The boolean union of two closed-loop sets at the fixed merge
/// tolerance, as the outside curve library computes it.
pub uninterp spec fn union_of(a: Seq<PathLoop>, b: Seq<PathLoop>) -> Seq<PathLoop>;

/// Relies on flo_curves::bezier::path::path_add: the geometric union of
/// two closed-loop sets, merging anything closer than the accuracy
/// argument, here fixed at one thousandth of a unit.  The result is a
/// pure computation over the two sets, so it is named rather than
/// described: stating the union's geometry would take pages.
#[verifier::external_body]
fn oracle_union(a: &Vec<PathLoop>, b: &Vec<PathLoop>) -> (r: Vec<PathLoop>)
    ensures
        r@ == union_of(a@, b@),
{
    flo_curves::bezier::path::path_add(a, b, "0.001".parse().unwrap())
}

/// The union of the first `n` loops of `paths`, folded left to right:
/// the first loop alone, then each later loop unioned into the running
/// result.
pub open spec fn union_prefix(paths: Seq<PathLoop>, n: int) -> Seq<PathLoop>
    decreases n,
{
    if n <= 0 {
        Seq::empty()
    } else if n == 1 {
        seq![paths[0]]
    } else {
        union_of(union_prefix(paths, n - 1), seq![paths[n - 1]])
    }
}

/// The accumulator is deterministic: the folded union is a function of
/// the input sequence alone, so repeated calls of `union_all` on
/// identical input give identical output.
pub proof fn lemma_union_all_deterministic(r1: Seq<PathLoop>, r2: Seq<PathLoop>, paths: Seq<PathLoop>)
    requires
        r1 == union_prefix(paths, paths.len() as int),
        r2 == union_prefix(paths, paths.len() as int),
    ensures
        r1 == r2,
{
}

/// Folds all loops into one unioned set.  No loops give the empty set; a
/// single loop comes back unchanged; otherwise the loops are unioned
/// left to right, each one merged into the running result.
pub fn union_all(mut paths: Vec<PathLoop>) -> (r: Vec<PathLoop>)
    ensures
        r@ == union_prefix(paths@, paths@.len() as int),
        paths@.len() == 0 ==> r@ == Seq::<PathLoop>::empty(),
        paths@.len() == 1 ==> r@ == paths@,
{
    let ghost orig = paths@;
    let n = paths.len();
    if n == 0 {
        let r: Vec<PathLoop> = Vec::new();
        proof {
            assert(r@ =~= union_prefix(orig, 0));
        }
        return r;
    }
    let first = paths.remove(0);
    let mut result: Vec<PathLoop> = Vec::new();
    result.push(first);
    proof {
        assert(result@ =~= union_prefix(orig, 1));
        assert(paths@ =~= orig.subrange(1, n as int));
    }
    let mut k: usize = 1;
    while k < n
        invariant
            1 <= k <= n,
            n == orig.len(),
            paths@ =~= orig.subrange(k as int, n as int),
            result@ == union_prefix(orig, k as int),
        decreases n - k,
    {
        let next = paths.remove(0);
        proof {
            assert(next == orig[k as int]);
        }
        let mut single: Vec<PathLoop> = Vec::new();
        single.push(next);
        proof {
            assert(single@ =~= seq![orig[k as int]]);
        }
        let unioned = oracle_union(&result, &single);
        result = unioned;
        proof {
            assert(result@ == union_prefix(orig, k as int + 1));
        }
        k = k + 1;
        proof {
            assert(paths@ =~= orig.subrange(k as int, n as int));
        }
    }
    proof {
        if orig.len() == 1 {
            assert(union_prefix(orig, 1) =~= orig);
        }
    }
    result
}

} // verus!
