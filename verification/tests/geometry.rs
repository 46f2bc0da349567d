use annotation_editor::geometry::{
    endpoint_at_point, handle_at_point, point_in_ellipse, point_in_rect, point_near_segment,
    squared_distance, Edges, HandleId, Point, Rect, UNIT,
};

fn pt(x: i32, y: i32) -> Point {
    Point { x: x * UNIT, y: y * UNIT }
}

fn rect(x: i32, y: i32, w: i32, h: i32) -> Rect {
    Rect { x: x * UNIT, y: y * UNIT, width: w * UNIT, height: h * UNIT }
}

#[test]
fn point_in_rect_accepts_border_points() {
    let b = rect(0, 0, 10, 5);
    assert!(point_in_rect(b, pt(0, 0)));
    assert!(point_in_rect(b, pt(10, 5)));
    assert!(point_in_rect(b, pt(4, 2)));
    assert!(!point_in_rect(b, Point { x: 10 * UNIT + 1, y: 5 * UNIT }));
    assert!(!point_in_rect(b, Point { x: -1, y: 0 }));
}

#[test]
fn point_in_rect_is_the_same_from_the_opposite_corner() {
    let b = rect(10, 20, 30, 40);
    let flipped = rect(40, 60, -30, -40);
    for x in [0, 9, 10, 25, 40, 41, 100] {
        for y in [0, 19, 20, 35, 60, 61, 100] {
            assert_eq!(point_in_rect(b, pt(x, y)), point_in_rect(flipped, pt(x, y)));
        }
    }
    assert!(point_in_rect(flipped, pt(10, 20)));
    assert!(!point_in_rect(flipped, pt(9, 20)));
}

#[test]
fn point_in_ellipse_follows_the_inscribed_curve() {
    let b = rect(0, 0, 100, 50);
    assert!(point_in_ellipse(b, pt(50, 25)));
    assert!(point_in_ellipse(b, pt(100, 25)));
    assert!(point_in_ellipse(b, pt(50, 0)));
    assert!(!point_in_ellipse(b, pt(0, 0)));
    assert!(!point_in_ellipse(b, pt(100, 50)));
    assert!(!point_in_ellipse(b, Point { x: 100 * UNIT + 1, y: 25 * UNIT }));
    // (80, 40): (30/50)^2 + (15/25)^2 = 0.72
    assert!(point_in_ellipse(b, pt(80, 40)));
    // (90, 45): (40/50)^2 + (20/25)^2 = 1.28
    assert!(!point_in_ellipse(b, pt(90, 45)));
}

#[test]
fn point_in_ellipse_without_extent_is_never_hit() {
    assert!(!point_in_ellipse(rect(5, 5, 0, 10), pt(5, 10)));
    assert!(!point_in_ellipse(rect(5, 5, 10, 0), pt(10, 5)));
    assert!(!point_in_ellipse(rect(5, 5, 0, 0), pt(5, 5)));
}

#[test]
fn point_in_ellipse_takes_negative_sizes() {
    let b = rect(100, 50, -100, -50);
    assert!(point_in_ellipse(b, pt(50, 25)));
    assert!(!point_in_ellipse(b, pt(0, 0)));
}

#[test]
fn point_in_ellipse_at_the_limits_of_the_range() {
    let b = Rect { x: i32::MIN, y: i32::MIN, width: i32::MAX, height: i32::MAX };
    assert!(!point_in_ellipse(b, Point { x: i32::MAX, y: i32::MAX }));
    assert!(point_in_ellipse(b, Point { x: -1073741824, y: -1073741824 }));
}

#[test]
fn point_near_segment_within_tolerance() {
    let a = pt(0, 0);
    let b = pt(100, 0);
    assert!(point_near_segment(a, b, pt(50, 5), 5 * UNIT));
    assert!(point_near_segment(a, b, pt(50, -5), 5 * UNIT));
    assert!(!point_near_segment(a, b, Point { x: 50 * UNIT, y: 5 * UNIT + 1 }, 5 * UNIT));
    assert!(point_near_segment(a, b, pt(0, 3), 5 * UNIT));
    assert!(point_near_segment(a, b, pt(100, 3), 5 * UNIT));
}

#[test]
fn point_near_segment_needs_the_projection_on_the_segment() {
    let a = pt(0, 0);
    let b = pt(100, 0);
    assert!(!point_near_segment(a, b, Point { x: -1, y: 0 }, 5 * UNIT));
    assert!(!point_near_segment(a, b, Point { x: 100 * UNIT + 1, y: 0 }, 5 * UNIT));
}

#[test]
fn point_near_segment_of_no_length_is_never_hit() {
    assert!(!point_near_segment(pt(3, 3), pt(3, 3), pt(3, 3), 5 * UNIT));
}

#[test]
fn point_near_segment_with_negative_tolerance_is_never_hit() {
    assert!(!point_near_segment(pt(0, 0), pt(10, 0), pt(5, 0), -1));
}

#[test]
fn point_near_segment_on_a_slanted_line() {
    // 3-4-5 triangle: the point (0, 5) lies 4 away from the line through (0,0) and (3,4)*10.
    let a = pt(0, 0);
    let b = pt(30, 40);
    assert!(point_near_segment(a, b, pt(5, 0), 4 * UNIT));
    assert!(!point_near_segment(a, b, pt(5, 0), 4 * UNIT - 1));
}

#[test]
fn point_near_segment_at_the_limits_of_the_range() {
    let a = Point { x: i32::MIN, y: i32::MIN };
    let b = Point { x: i32::MAX, y: i32::MAX };
    assert!(point_near_segment(a, b, Point { x: 0, y: 0 }, 5 * UNIT));
    assert!(!point_near_segment(a, b, Point { x: i32::MAX, y: i32::MIN }, i32::MAX));
}

#[test]
fn handle_at_point_finds_each_handle() {
    let e = Edges { left: 0, top: 0, right: 100_000, bottom: 60_000 };
    let tol = 10_000;
    assert_eq!(handle_at_point(e, pt(0, 0), tol), Some(HandleId::Nw));
    assert_eq!(handle_at_point(e, pt(50, 0), tol), Some(HandleId::N));
    assert_eq!(handle_at_point(e, pt(100, 0), tol), Some(HandleId::Ne));
    assert_eq!(handle_at_point(e, pt(100, 30), tol), Some(HandleId::E));
    assert_eq!(handle_at_point(e, pt(100, 60), tol), Some(HandleId::Se));
    assert_eq!(handle_at_point(e, pt(50, 60), tol), Some(HandleId::S));
    assert_eq!(handle_at_point(e, pt(0, 60), tol), Some(HandleId::Sw));
    assert_eq!(handle_at_point(e, pt(0, 30), tol), Some(HandleId::W));
    assert_eq!(handle_at_point(e, pt(50, 30), tol), None);
}

#[test]
fn handle_at_point_square_has_half_the_tolerance_on_each_side() {
    let e = Edges { left: 0, top: 0, right: 100_000, bottom: 60_000 };
    assert_eq!(handle_at_point(e, pt(5, 5), 10_000), Some(HandleId::Nw));
    assert_eq!(handle_at_point(e, Point { x: 5001, y: 5000 }, 10_000), None);
    assert_eq!(handle_at_point(e, Point { x: 4500, y: 0 }, 9_000), Some(HandleId::Nw));
    assert_eq!(handle_at_point(e, Point { x: 4501, y: 0 }, 9_000), None);
}

#[test]
fn handle_at_point_midpoint_between_whole_coordinates() {
    let e = Edges { left: 0, top: 0, right: 100_001, bottom: 60_000 };
    // The centre lies at 50000.5: a point 4999.5 to its left is within 10000 / 2.
    assert_eq!(handle_at_point(e, Point { x: 45_001, y: 0 }, 10_000), Some(HandleId::N));
    assert_eq!(handle_at_point(e, Point { x: 45_000, y: 0 }, 10_000), None);
}

#[test]
fn handle_at_point_tie_goes_to_the_earlier_handle() {
    // Box 8 wide: nw at x = 0, n at x = 4, ne at x = 8.
    let e = Edges { left: 0, top: 0, right: 8_000, bottom: 100_000 };
    let tol = 10_000;
    // Equally far from nw and n.
    assert_eq!(handle_at_point(e, pt(2, 0), tol), Some(HandleId::Nw));
    // Equally far from n and ne, and out of reach of nw.
    assert_eq!(handle_at_point(e, pt(6, 0), tol), Some(HandleId::N));
    // Low box: e comes before se, sw before w.
    let low = Edges { left: 0, top: 0, right: 100_000, bottom: 8_000 };
    assert_eq!(handle_at_point(low, pt(100, 6), tol), Some(HandleId::E));
    assert_eq!(handle_at_point(low, pt(0, 6), tol), Some(HandleId::Sw));
    assert_eq!(handle_at_point(low, pt(0, 2), tol), Some(HandleId::Nw));
}

#[test]
fn handle_at_point_with_negative_tolerance_finds_nothing() {
    let e = Edges { left: 0, top: 0, right: 100_000, bottom: 60_000 };
    assert_eq!(handle_at_point(e, pt(0, 0), -1), None);
    assert_eq!(handle_at_point(e, pt(0, 0), 0), Some(HandleId::Nw));
}

#[test]
fn endpoint_at_point_tries_the_start_first() {
    let a = pt(0, 0);
    let b = pt(50, 50);
    assert_eq!(endpoint_at_point(a, b, pt(1, 1), 10_000), Some(HandleId::Start));
    assert_eq!(endpoint_at_point(a, b, pt(49, 52), 10_000), Some(HandleId::End));
    assert_eq!(endpoint_at_point(a, b, pt(25, 25), 10_000), None);
    let near = pt(4, 0);
    assert_eq!(endpoint_at_point(a, near, pt(2, 0), 10_000), Some(HandleId::Start));
}

#[test]
fn rect_edges_are_ordered() {
    let e = rect(40, 60, -30, -40).edges();
    assert_eq!(e, Edges { left: 10_000, top: 20_000, right: 40_000, bottom: 60_000 });
    let f = Edges::from_corners(pt(7, 1), pt(2, 9));
    assert_eq!(f, Edges { left: 2_000, top: 1_000, right: 7_000, bottom: 9_000 });
    assert!(f.contains(pt(2, 9)));
    assert!(!f.contains(pt(1, 9)));
}

#[test]
fn squared_distance_is_exact() {
    assert_eq!(squared_distance(pt(0, 0), pt(3, 4)), 25_000_000);
    assert_eq!(
        squared_distance(Point { x: i32::MIN, y: i32::MIN }, Point { x: i32::MAX, y: i32::MAX }),
        2 * 4294967295i128 * 4294967295i128
    );
}
