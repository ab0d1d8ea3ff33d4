use dino_dodge::geometry::{make_rect, Rect, Vec2};

#[test]
fn make_rect_centers_the_square() {
    let r = make_rect(Vec2 { x: 100, y: -50 }, 64);
    assert_eq!(r.min_x, 68);
    assert_eq!(r.min_y, -82);
    assert_eq!(r.max_x, 132);
    assert_eq!(r.max_y, -18);
}

#[test]
fn intersect_of_overlapping_rects() {
    let a = Rect { min_x: 0, min_y: 0, max_x: 10, max_y: 10 };
    let b = Rect { min_x: 5, min_y: -3, max_x: 20, max_y: 7 };
    let r = a.intersect(&b);
    assert_eq!(r.min_x, 5);
    assert_eq!(r.min_y, 0);
    assert_eq!(r.max_x, 10);
    assert_eq!(r.max_y, 7);
    assert!(!r.is_empty());
}

#[test]
fn intersect_of_disjoint_rects_is_empty() {
    let a = Rect { min_x: 0, min_y: 0, max_x: 10, max_y: 10 };
    let b = Rect { min_x: 30, min_y: 0, max_x: 40, max_y: 10 };
    assert!(a.intersect(&b).is_empty());
    assert!(b.intersect(&a).is_empty());
}

#[test]
fn rects_touching_along_an_edge_do_not_overlap() {
    let a = Rect { min_x: 0, min_y: 0, max_x: 10, max_y: 10 };
    let b = Rect { min_x: 10, min_y: 0, max_x: 20, max_y: 10 };
    assert!(a.intersect(&b).is_empty());
}

#[test]
fn overlap_of_known_boxes_through_make_rect() {
    // Two 64-wide boxes, centres 63 apart: they overlap by one unit.
    let a = make_rect(Vec2 { x: 0, y: 0 }, 64);
    let b = make_rect(Vec2 { x: 63, y: 0 }, 64);
    assert!(!a.intersect(&b).is_empty());
    // Centres exactly 64 apart: the boxes only touch, which is no overlap.
    let c = make_rect(Vec2 { x: 64, y: 0 }, 64);
    assert!(a.intersect(&c).is_empty());
}
