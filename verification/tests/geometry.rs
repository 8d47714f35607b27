use railroad_harness::geometry::{Point, Quad};

fn rect(left: i64, top: i64, right: i64, bottom: i64) -> Quad {
    Quad {
        top_left: Point { x: left, y: top },
        top_right: Point { x: right, y: top },
        bottom_left: Point { x: left, y: bottom },
        bottom_right: Point { x: right, y: bottom },
    }
}

#[test]
fn edges_of_an_upright_rectangle() {
    let q = rect(10, 20, 110, 70);
    assert_eq!(q.most_left(), 10);
    assert_eq!(q.most_right(), 110);
    assert_eq!(q.most_top(), 20);
    assert_eq!(q.most_bottom(), 70);
}

#[test]
fn edges_go_by_the_outermost_corner() {
    let q = Quad {
        top_left: Point { x: 5, y: -3 },
        top_right: Point { x: 40, y: 2 },
        bottom_left: Point { x: -7, y: 30 },
        bottom_right: Point { x: 33, y: 41 },
    };
    assert_eq!(q.most_left(), -7);
    assert_eq!(q.most_right(), 40);
    assert_eq!(q.most_top(), -3);
    assert_eq!(q.most_bottom(), 41);
}

#[test]
fn edges_at_the_ends_of_the_grid() {
    let q = rect(i64::MIN, i64::MIN, i64::MAX, i64::MAX);
    assert_eq!(q.most_left(), i64::MIN);
    assert_eq!(q.most_right(), i64::MAX);
    assert!(rect(0, 0, 1, 1).within_bounds_of(&q));
    assert!(!q.within_bounds_of(&rect(0, 0, 1, 1)));
}

#[test]
fn above_allows_touching_and_forbids_overlap() {
    let upper = rect(0, 0, 100, 50);
    assert!(upper.above(&rect(0, 50, 100, 90)));
    assert!(upper.above(&rect(0, 51, 100, 90)));
    assert!(!upper.above(&rect(0, 49, 100, 90)));
    assert!(!rect(0, 50, 100, 90).above(&upper));
}

#[test]
fn horizontal_and_vertical_bounds() {
    let outer = rect(0, 0, 100, 100);
    assert!(rect(0, -50, 100, 500).within_horizontal_bounds_of(&outer));
    assert!(!rect(-1, 10, 100, 20).within_horizontal_bounds_of(&outer));
    assert!(!rect(0, 10, 101, 20).within_horizontal_bounds_of(&outer));
    assert!(rect(-50, 0, 500, 100).within_vertical_bounds_of(&outer));
    assert!(!rect(10, -1, 20, 100).within_vertical_bounds_of(&outer));
    assert!(!rect(10, 0, 20, 101).within_vertical_bounds_of(&outer));
}

#[test]
fn within_bounds_needs_both_directions() {
    let outer = rect(0, 0, 100, 100);
    assert!(outer.within_bounds_of(&outer));
    assert!(rect(10, 10, 90, 90).within_bounds_of(&outer));
    assert!(!rect(10, 10, 101, 90).within_bounds_of(&outer));
    assert!(!rect(10, 10, 90, 101).within_bounds_of(&outer));
    assert!(!outer.within_bounds_of(&rect(10, 10, 90, 90)));
}

#[test]
fn right_edges_and_flush_regions() {
    let upper = rect(0, 0, 100, 50);
    assert!(upper.right_edge_matches(&rect(40, 50, 100, 80)));
    assert!(!upper.right_edge_matches(&rect(40, 50, 99, 80)));
    assert!(upper.flush_above(&rect(40, 50, 100, 80)));
    assert!(!upper.flush_above(&rect(40, 51, 100, 80)));
    assert!(!upper.flush_above(&rect(40, 49, 100, 80)));
}
