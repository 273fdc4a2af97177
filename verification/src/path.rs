//! Canonical path model.
//!
//! A contour is an ordered list of line, quadratic and cubic segments; a
//! canonical path is a closed loop written purely in cubic beziers: a
//! start point followed by (control1, control2, end) triples, each
//! segment starting where the previous one ended.  Coordinates are the
//! plane points of the curve library that performs the boolean union;
//! this model never reads a coordinate, it only moves points around, so
//! every function here is structural and exact.

use vstd::prelude::*;

verus! {

/// A point of the plane, as the curve library represents it.  The model
/// treats it as an opaque value: it is copied and compared as a whole,
/// never taken apart.
#[verifier::external_type_specification]
#[verifier::external_body]
pub struct ExCoord2(flo_curves::geo::Coord2);

/// One closed loop in canonical form: the loop's start point and the
/// (control1, control2, end) triple of each cubic segment.  The same
/// shape as the curve library's simple path, so loops flow to and from
/// the union oracle without conversion.
pub type PathLoop = (flo_curves::geo::Coord2, Vec<(flo_curves::geo::Coord2, flo_curves::geo::Coord2, flo_curves::geo::Coord2)>);

/// One segment of an interchange contour.
#[derive(Clone, Copy)]
pub enum Segment {
    Line { start: flo_curves::geo::Coord2, end: flo_curves::geo::Coord2 },
    Quadratic {
        start: flo_curves::geo::Coord2,
        control: flo_curves::geo::Coord2,
        end: flo_curves::geo::Coord2,
    },
    Cubic {
        start: flo_curves::geo::Coord2,
        control1: flo_curves::geo::Coord2,
        control2: flo_curves::geo::Coord2,
        end: flo_curves::geo::Coord2,
    },
}

/// Where segment `i` of a canonical path starts: at the loop's start
/// point for the first segment, at the previous segment's end point
/// after that.
pub open spec fn loop_seg_start(p: PathLoop, i: int) -> flo_curves::geo::Coord2 {
    if i <= 0 {
        p.0
    } else {
        p.1@[i - 1].2
    }
}

/// A segment with its travel direction turned around: start and end
/// swapped, and for a cubic the two control points swapped as well.
pub open spec fn spec_segment_reversed(s: Segment) -> Segment {
    match s {
        Segment::Line { start, end } => Segment::Line { start: end, end: start },
        Segment::Quadratic { start, control, end } => Segment::Quadratic {
            start: end,
            control: control,
            end: start,
        },
        Segment::Cubic { start, control1, control2, end } => Segment::Cubic {
            start: end,
            control1: control2,
            control2: control1,
            end: start,
        },
    }
}

/// What it means for `r` to be `p` walked backwards: `r` starts at `p`'s
/// final end point, and its `k`-th triple is `p`'s `(n-1-k)`-th triple
/// with the control points swapped and the end replaced by that
/// segment's start.
pub open spec fn loop_reversed(r: PathLoop, p: PathLoop) -> bool {
    &&& r.1@.len() == p.1@.len()
    &&& r.0 == (if p.1@.len() == 0 {
        p.0
    } else {
        p.1@[p.1@.len() - 1].2
    })
    &&& forall|k: int|
        0 <= k < p.1@.len() ==> #[trigger] r.1@[k] == ((
            p.1@[p.1@.len() - 1 - k].1,
            p.1@[p.1@.len() - 1 - k].0,
            loop_seg_start(p, p.1@.len() - 1 - k),
        ))
}

/// Reversal is a function of the input loop alone: any two loops that
/// both reverse `p` agree on their start point and on every triple, so
/// repeated reversals of identical input give identical output.
pub proof fn lemma_loop_reversed_unique(r1: PathLoop, r2: PathLoop, p: PathLoop)
    requires
        loop_reversed(r1, p),
        loop_reversed(r2, p),
    ensures
        r1.0 == r2.0,
        r1.1@ =~= r2.1@,
{
}

/// Reverses a contour: the segments come out in the opposite order, each
/// turned around.
pub fn reverse_contour(contour: &Vec<Segment>) -> (r: Vec<Segment>)
    ensures
        r@.len() == contour@.len(),
        forall|i: int|
            0 <= i < contour@.len() ==> #[trigger] r@[i] == spec_segment_reversed(
                contour@[contour@.len() - 1 - i],
            ),
{
    let n = contour.len();
    let mut r: Vec<Segment> = Vec::new();
    let mut k: usize = 0;
    while k < n
        invariant
            n == contour@.len(),
            k <= n,
            r@.len() == k,
            forall|i: int|
                0 <= i < k ==> #[trigger] r@[i] == spec_segment_reversed(contour@[n - 1 - i]),
        decreases n - k,
    {
        let s = contour[n - 1 - k];
        let rev = match s {
            Segment::Line { start, end } => Segment::Line { start: end, end: start },
            Segment::Quadratic { start, control, end } => Segment::Quadratic {
                start: end,
                control: control,
                end: start,
            },
            Segment::Cubic { start, control1, control2, end } => Segment::Cubic {
                start: end,
                control1: control2,
                control2: control1,
                end: start,
            },
        };
        r.push(rev);
        k = k + 1;
    }
    r
}

/// Reverses a canonical path: the new loop starts at the old final end
/// point and walks the segments backwards with their control points
/// swapped, so it traces the same curve in the opposite direction.
pub fn reverse_path(path: &PathLoop) -> (r: PathLoop)
    ensures
        loop_reversed(r, *path),
{
    let n = path.1.len();
    if n == 0 {
        let start = path.0;
        return (start, Vec::new());
    }
    let new_start = path.1[n - 1].2;
    let mut rev: Vec<(flo_curves::geo::Coord2, flo_curves::geo::Coord2, flo_curves::geo::Coord2)> =
        Vec::new();
    let mut k: usize = 0;
    while k < n
        invariant
            n == path.1@.len(),
            k <= n,
            rev@.len() == k,
            forall|m: int|
                0 <= m < k ==> #[trigger] rev@[m] == ((
                    path.1@[n - 1 - m].1,
                    path.1@[n - 1 - m].0,
                    loop_seg_start(*path, n - 1 - m),
                )),
        decreases n - k,
    {
        let t = path.1[n - 1 - k];
        let seg_start = if n - 1 - k == 0 {
            path.0
        } else {
            path.1[n - 2 - k].2
        };
        rev.push((t.1, t.0, seg_start));
        k = k + 1;
    }
    (new_start, rev)
}

/// Converts a canonical path back to an interchange contour: one cubic
/// segment per triple, each starting where the previous one ended.
pub fn path_to_contour(path: &PathLoop) -> (r: Vec<Segment>)
    ensures
        r@.len() == path.1@.len(),
        forall|i: int|
            0 <= i < path.1@.len() ==> #[trigger] r@[i] == (Segment::Cubic {
                start: loop_seg_start(*path, i),
                control1: path.1@[i].0,
                control2: path.1@[i].1,
                end: path.1@[i].2,
            }),
{
    let mut r: Vec<Segment> = Vec::new();
    let mut current = path.0;
    let mut k: usize = 0;
    while k < path.1.len()
        invariant
            k <= path.1@.len(),
            r@.len() == k,
            current == loop_seg_start(*path, k as int),
            forall|i: int|
                0 <= i < k ==> #[trigger] r@[i] == (Segment::Cubic {
                    start: loop_seg_start(*path, i),
                    control1: path.1@[i].0,
                    control2: path.1@[i].1,
                    end: path.1@[i].2,
                }),
        decreases path.1@.len() - k,
    {
        let t = path.1[k];
        r.push(
            Segment::Cubic { start: current, control1: t.0, control2: t.1, end: t.2 },
        );
        current = t.2;
        k = k + 1;
    }
    r
}

/// Keeps a contour as it is when its winding is already counter-clockwise
/// and turns it around otherwise.  The caller supplies the winding test's
/// outcome, since the signed area behind it is numeric.
pub fn normalize_contour_direction(contour: &Vec<Segment>, counter_clockwise: bool) -> (r: Vec<
    Segment,
>)
    ensures
        counter_clockwise ==> r@ == contour@,
        !counter_clockwise ==> {
            &&& r@.len() == contour@.len()
            &&& forall|i: int|
                0 <= i < contour@.len() ==> #[trigger] r@[i] == spec_segment_reversed(
                    contour@[contour@.len() - 1 - i],
                )
        },
{
    if counter_clockwise {
        let mut r: Vec<Segment> = Vec::new();
        let mut k: usize = 0;
        while k < contour.len()
            invariant
                k <= contour@.len(),
                r@.len() == k,
                forall|i: int| 0 <= i < k ==> #[trigger] r@[i] == contour@[i],
            decreases contour@.len() - k,
        {
            r.push(contour[k]);
            k = k + 1;
        }
        proof {
            assert(r@ =~= contour@);
        }
        r
    } else {
        reverse_contour(contour)
    }
}

} // verus!
