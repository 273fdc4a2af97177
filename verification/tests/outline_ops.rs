use flo_curves::geo::Coord2;
use font_overlap_remover::path::{
    normalize_contour_direction, path_to_contour, reverse_contour, reverse_path, PathLoop, Segment,
};

fn sample_contour() -> Vec<Segment> {
    vec![
        Segment::Line { start: Coord2(0.0, 0.0), end: Coord2(2.0, 0.0) },
        Segment::Quadratic {
            start: Coord2(2.0, 0.0),
            control: Coord2(3.0, 1.0),
            end: Coord2(2.0, 2.0),
        },
        Segment::Cubic {
            start: Coord2(2.0, 2.0),
            control1: Coord2(1.5, 2.5),
            control2: Coord2(0.5, 2.5),
            end: Coord2(0.0, 0.0),
        },
    ]
}

fn assert_segment_eq(a: &Segment, b: &Segment) {
    match (a, b) {
        (Segment::Line { start: s1, end: e1 }, Segment::Line { start: s2, end: e2 }) => {
            assert_eq!(s1, s2);
            assert_eq!(e1, e2);
        }
        (
            Segment::Quadratic { start: s1, control: c1, end: e1 },
            Segment::Quadratic { start: s2, control: c2, end: e2 },
        ) => {
            assert_eq!(s1, s2);
            assert_eq!(c1, c2);
            assert_eq!(e1, e2);
        }
        (
            Segment::Cubic { start: s1, control1: c11, control2: c21, end: e1 },
            Segment::Cubic { start: s2, control1: c12, control2: c22, end: e2 },
        ) => {
            assert_eq!(s1, s2);
            assert_eq!(c11, c12);
            assert_eq!(c21, c22);
            assert_eq!(e1, e2);
        }
        _ => panic!("segment variants differ"),
    }
}

#[test]
fn reverse_contour_swaps_order_and_endpoints() {
    let contour = sample_contour();
    let reversed = reverse_contour(&contour);
    assert_eq!(reversed.len(), 3);
    assert_segment_eq(
        &reversed[0],
        &Segment::Cubic {
            start: Coord2(0.0, 0.0),
            control1: Coord2(0.5, 2.5),
            control2: Coord2(1.5, 2.5),
            end: Coord2(2.0, 2.0),
        },
    );
    assert_segment_eq(
        &reversed[1],
        &Segment::Quadratic {
            start: Coord2(2.0, 2.0),
            control: Coord2(3.0, 1.0),
            end: Coord2(2.0, 0.0),
        },
    );
    assert_segment_eq(
        &reversed[2],
        &Segment::Line { start: Coord2(2.0, 0.0), end: Coord2(0.0, 0.0) },
    );
}

#[test]
fn reverse_contour_twice_is_identity() {
    let contour = sample_contour();
    let back = reverse_contour(&reverse_contour(&contour));
    assert_eq!(back.len(), contour.len());
    for (a, b) in back.iter().zip(contour.iter()) {
        assert_segment_eq(a, b);
    }
}

fn sample_loop() -> PathLoop {
    (
        Coord2(0.0, 0.0),
        vec![
            (Coord2(1.0, 0.5), Coord2(2.0, 0.5), Coord2(3.0, 0.0)),
            (Coord2(3.5, 1.0), Coord2(3.5, 2.0), Coord2(3.0, 3.0)),
            (Coord2(2.0, 2.5), Coord2(1.0, 2.5), Coord2(0.0, 0.0)),
        ],
    )
}

#[test]
fn reverse_path_walks_backwards_with_swapped_controls() {
    let path = sample_loop();
    let rev = reverse_path(&path);
    assert_eq!(rev.0, Coord2(0.0, 0.0));
    assert_eq!(rev.1.len(), 3);
    assert_eq!(rev.1[0], (Coord2(1.0, 2.5), Coord2(2.0, 2.5), Coord2(3.0, 3.0)));
    assert_eq!(rev.1[1], (Coord2(3.5, 2.0), Coord2(3.5, 1.0), Coord2(3.0, 0.0)));
    assert_eq!(rev.1[2], (Coord2(2.0, 0.5), Coord2(1.0, 0.5), Coord2(0.0, 0.0)));
}

#[test]
fn reverse_path_twice_is_identity() {
    let path = sample_loop();
    let back = reverse_path(&reverse_path(&path));
    assert_eq!(back.0, path.0);
    assert_eq!(back.1, path.1);
}

#[test]
fn reverse_path_of_empty_loop_keeps_start() {
    let path: PathLoop = (Coord2(4.0, 5.0), vec![]);
    let rev = reverse_path(&path);
    assert_eq!(rev.0, Coord2(4.0, 5.0));
    assert!(rev.1.is_empty());
}

#[test]
fn path_to_contour_emits_cubics_with_running_start() {
    let path = sample_loop();
    let contour = path_to_contour(&path);
    assert_eq!(contour.len(), 3);
    assert_segment_eq(
        &contour[0],
        &Segment::Cubic {
            start: Coord2(0.0, 0.0),
            control1: Coord2(1.0, 0.5),
            control2: Coord2(2.0, 0.5),
            end: Coord2(3.0, 0.0),
        },
    );
    assert_segment_eq(
        &contour[1],
        &Segment::Cubic {
            start: Coord2(3.0, 0.0),
            control1: Coord2(3.5, 1.0),
            control2: Coord2(3.5, 2.0),
            end: Coord2(3.0, 3.0),
        },
    );
    assert_segment_eq(
        &contour[2],
        &Segment::Cubic {
            start: Coord2(3.0, 3.0),
            control1: Coord2(2.0, 2.5),
            control2: Coord2(1.0, 2.5),
            end: Coord2(0.0, 0.0),
        },
    );
}

#[test]
fn normalize_contour_direction_keeps_or_reverses() {
    let contour = sample_contour();
    let kept = normalize_contour_direction(&contour, true);
    assert_eq!(kept.len(), contour.len());
    for (a, b) in kept.iter().zip(contour.iter()) {
        assert_segment_eq(a, b);
    }
    let turned = normalize_contour_direction(&contour, false);
    let reversed = reverse_contour(&contour);
    assert_eq!(turned.len(), reversed.len());
    for (a, b) in turned.iter().zip(reversed.iter()) {
        assert_segment_eq(a, b);
    }
}
