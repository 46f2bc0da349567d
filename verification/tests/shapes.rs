use annotation_editor::geometry::{Edges, HandleId, Point, Rect, Size, UNIT};
use annotation_editor::shapes::{ArrowShape, BoundedShape, Offset, Outline};

fn pt(x: i32, y: i32) -> Point {
    Point { x: x * UNIT, y: y * UNIT }
}

fn boxed(x: i32, y: i32, w: i32, h: i32) -> BoundedShape {
    BoundedShape {
        frame: Rect { x: x * UNIT, y: y * UNIT, width: w * UNIT, height: h * UNIT },
        drag_start: pt(x, y),
        drag_end: pt(x + w, y + h),
        selected: true,
    }
}

fn surface() -> Edges {
    Size { width: 800 * UNIT, height: 600 * UNIT }.edges()
}

#[test]
fn new_shape_has_no_extent() {
    let s = BoundedShape::new_at(pt(3, 4));
    assert_eq!(s.frame, Rect { x: 3000, y: 4000, width: 0, height: 0 });
    assert_eq!(s.drag_start, pt(3, 4));
    assert_eq!(s.drag_end, pt(3, 4));
    assert!(s.selected);
    let a = ArrowShape::new_at(pt(3, 4));
    assert_eq!(a, ArrowShape { start: pt(3, 4), end: pt(3, 4), selected: true });
}

#[test]
fn drawing_keeps_the_size_positive_in_every_direction() {
    let mut s = BoundedShape::new_at(pt(50, 50));
    s.update_drawing(pt(80, 70), None);
    assert_eq!(s.frame, Rect { x: 50_000, y: 50_000, width: 30_000, height: 20_000 });
    s.update_drawing(pt(20, 70), None);
    assert_eq!(s.frame, Rect { x: 20_000, y: 50_000, width: 30_000, height: 20_000 });
    s.update_drawing(pt(80, 10), None);
    assert_eq!(s.frame, Rect { x: 50_000, y: 10_000, width: 30_000, height: 40_000 });
    s.update_drawing(pt(20, 10), None);
    assert_eq!(s.frame, Rect { x: 20_000, y: 10_000, width: 30_000, height: 40_000 });
    assert_eq!(s.drag_end, pt(20, 10));
    assert_eq!(s.drag_start, pt(50, 50));
}

#[test]
fn drawing_is_limited_to_the_given_box() {
    let limit = Edges { left: 10_000, top: 10_000, right: 60_000, bottom: 60_000 };
    let mut s = BoundedShape::new_at(pt(20, 20));
    s.update_drawing(pt(500, 5), Some(limit));
    assert_eq!(s.frame, Rect { x: 20_000, y: 10_000, width: 40_000, height: 10_000 });
    assert_eq!(s.drag_end, pt(60, 10));
}

#[test]
fn drawing_out_of_range_changes_nothing() {
    let mut s = BoundedShape::new_at(Point { x: i32::MIN, y: 0 });
    let before = s;
    s.update_drawing(Point { x: i32::MAX, y: 10 }, None);
    assert_eq!(s, before);
}

#[test]
fn drag_moves_the_corner_and_keeps_the_size() {
    let mut s = boxed(10, 10, 30, 20);
    let offset = s.begin_drag(pt(15, 12));
    assert_eq!(offset, Offset { dx: 5_000, dy: 2_000 });
    s.update_drag(pt(115, 212), offset, surface());
    assert_eq!(s.frame, Rect { x: 110_000, y: 210_000, width: 30_000, height: 20_000 });
}

#[test]
fn drag_is_kept_inside_the_container() {
    let mut s = boxed(10, 10, 30, 20);
    let offset = Offset { dx: 0, dy: 0 };
    s.update_drag(pt(-50, -50), offset, surface());
    assert_eq!((s.frame.x, s.frame.y), (0, 0));
    s.update_drag(pt(5000, 5000), offset, surface());
    assert_eq!((s.frame.x, s.frame.y), (770_000, 580_000));
}

#[test]
fn drag_of_a_shape_wider_than_its_container_rests_on_the_far_side() {
    let mut s = boxed(0, 0, 100, 20);
    let container = Edges { left: 40_000, top: 0, right: 60_000, bottom: 100_000 };
    s.update_drag(pt(50, 10), Offset { dx: 0, dy: 0 }, container);
    assert_eq!(s.frame.x, -40_000);
    assert_eq!(s.frame.width, 100_000);
}

#[test]
fn resize_east_sets_the_width() {
    let mut s = boxed(10, 10, 30, 20);
    s.update_resize(HandleId::E, pt(100, 500));
    assert_eq!(s.frame, Rect { x: 10_000, y: 10_000, width: 90_000, height: 20_000 });
}

#[test]
fn resize_east_that_would_leave_width_four_changes_nothing() {
    let mut s = boxed(10, 10, 30, 20);
    s.update_resize(HandleId::E, pt(14, 15));
    assert_eq!(s.frame.width, 30_000);
    assert_eq!(s, boxed(10, 10, 30, 20));
}

#[test]
fn resize_east_floor_is_exactly_ten() {
    let mut s = boxed(10, 10, 30, 20);
    s.update_resize(HandleId::E, Point { x: 19_999, y: 0 });
    assert_eq!(s.frame.width, 30_000);
    s.update_resize(HandleId::E, Point { x: 20_000, y: 0 });
    assert_eq!(s.frame.width, 10_000);
}

#[test]
fn resize_by_each_handle() {
    let start = boxed(100, 100, 50, 40);
    let cases = [
        (HandleId::Nw, pt(90, 80), (90, 80, 60, 60)),
        (HandleId::N, pt(0, 80), (100, 80, 50, 60)),
        (HandleId::Ne, pt(170, 80), (100, 80, 70, 60)),
        (HandleId::E, pt(170, 0), (100, 100, 70, 40)),
        (HandleId::Se, pt(170, 160), (100, 100, 70, 60)),
        (HandleId::S, pt(0, 160), (100, 100, 50, 60)),
        (HandleId::Sw, pt(90, 160), (90, 100, 60, 60)),
        (HandleId::W, pt(90, 0), (90, 100, 60, 40)),
    ];
    for (handle, p, (x, y, w, h)) in cases {
        let mut s = start;
        s.update_resize(handle, p);
        assert_eq!(
            s.frame,
            Rect { x: x * UNIT, y: y * UNIT, width: w * UNIT, height: h * UNIT }
        );
    }
}

#[test]
fn resize_by_a_corner_that_fails_on_one_axis_changes_neither() {
    let mut s = boxed(100, 100, 50, 40);
    // Width would be 70, height would be 5.
    s.update_resize(HandleId::Se, pt(170, 105));
    assert_eq!(s, boxed(100, 100, 50, 40));
    s.update_resize(HandleId::Nw, pt(145, 50));
    assert_eq!(s, boxed(100, 100, 50, 40));
}

#[test]
fn resize_by_an_end_handle_changes_no_box() {
    let mut s = boxed(100, 100, 50, 40);
    s.update_resize(HandleId::Start, pt(0, 0));
    s.update_resize(HandleId::End, pt(500, 500));
    assert_eq!(s, boxed(100, 100, 50, 40));
}

#[test]
fn finalize_discards_three_by_three() {
    assert_eq!(boxed(10, 10, 3, 3).finalize(), None);
    assert_eq!(boxed(10, 10, 30, 3).finalize(), None);
    assert_eq!(boxed(10, 10, 3, 30).finalize(), None);
}

#[test]
fn finalize_keeps_five_by_five() {
    let mut s = boxed(10, 10, 5, 5);
    s.selected = false;
    let kept = s.finalize().unwrap();
    assert!(kept.selected);
    assert_eq!(kept.frame, Rect { x: 10_000, y: 10_000, width: 5_000, height: 5_000 });
    let mut below = boxed(10, 10, 5, 5);
    below.frame.width = 4_999;
    assert_eq!(below.finalize(), None);
}

#[test]
fn finalize_makes_sizes_positive() {
    let kept = boxed(10, 10, -8, -6).finalize().unwrap();
    assert_eq!(kept.frame, Rect { x: 10_000, y: 10_000, width: 8_000, height: 6_000 });
}

#[test]
fn hit_test_by_outline() {
    let s = boxed(0, 0, 100, 50);
    assert!(s.hit_test(Outline::Rectangle, pt(1, 1)));
    assert!(!s.hit_test(Outline::Ellipse, pt(1, 1)));
    assert!(s.hit_test(Outline::Ellipse, pt(50, 25)));
}

#[test]
fn handles_show_only_on_selected_shapes() {
    let mut s = boxed(0, 0, 100, 50);
    assert_eq!(s.handle_at(pt(100, 50), 8 * UNIT), Some(HandleId::Se));
    // Effective tolerance is 8 + 2, so 5 to each side.
    assert_eq!(s.handle_at(pt(105, 55), 8 * UNIT), Some(HandleId::Se));
    assert_eq!(s.handle_at(Point { x: 105_001, y: 55_000 }, 8 * UNIT), None);
    s.selected = false;
    assert_eq!(s.handle_at(pt(100, 50), 8 * UNIT), None);
}

#[test]
fn arrow_of_length_ten_is_kept() {
    let a = ArrowShape { start: pt(0, 0), end: pt(10, 0), selected: false };
    assert_eq!(a.finalize(), Some(ArrowShape { start: pt(0, 0), end: pt(10, 0), selected: true }));
    let slanted = ArrowShape { start: pt(0, 0), end: pt(6, 8), selected: true };
    assert!(slanted.is_long_enough());
    assert!(slanted.finalize().is_some());
}

#[test]
fn arrow_of_length_nine_point_nine_nine_nine_is_discarded() {
    let a = ArrowShape { start: pt(0, 0), end: Point { x: 9_999, y: 0 }, selected: true };
    assert!(!a.is_long_enough());
    assert_eq!(a.finalize(), None);
    let slanted = ArrowShape { start: pt(0, 0), end: Point { x: 6_000, y: 7_999 }, selected: true };
    assert_eq!(slanted.finalize(), None);
}

#[test]
fn arrow_hit_test_uses_five_units() {
    let a = ArrowShape { start: pt(0, 0), end: pt(100, 0), selected: true };
    assert!(a.hit_test(pt(50, 5)));
    assert!(!a.hit_test(Point { x: 50_000, y: 5_001 }));
    assert!(!ArrowShape::new_at(pt(5, 5)).hit_test(pt(5, 5)));
}

#[test]
fn arrow_handles() {
    let mut a = ArrowShape { start: pt(0, 0), end: pt(100, 0), selected: true };
    assert_eq!(a.handle_at(pt(2, 2), 8 * UNIT), Some(HandleId::Start));
    assert_eq!(a.handle_at(pt(98, -5), 8 * UNIT), Some(HandleId::End));
    assert_eq!(a.handle_at(pt(50, 0), 8 * UNIT), None);
    a.selected = false;
    assert_eq!(a.handle_at(pt(2, 2), 8 * UNIT), None);
}

#[test]
fn arrow_drawing_moves_the_end_into_the_limit() {
    let mut a = ArrowShape::new_at(pt(10, 10));
    a.update_drawing(pt(900, -20), surface());
    assert_eq!(a.end, pt(800, 0));
    assert_eq!(a.start, pt(10, 10));
}

#[test]
fn arrow_drag_keeps_the_vector() {
    let mut a = ArrowShape { start: pt(10, 10), end: pt(40, 50), selected: true };
    let offset = a.begin_drag(pt(20, 20));
    assert_eq!(offset, Offset { dx: 10_000, dy: 10_000 });
    a.update_drag(pt(120, 220), offset, surface());
    assert_eq!(a.start, pt(110, 210));
    assert_eq!(a.end, pt(140, 250));
    a.update_drag(pt(-500, -500), offset, surface());
    assert_eq!(a.start, pt(0, 0));
    assert_eq!(a.end, pt(30, 40));
}

#[test]
fn arrow_resize_moves_the_named_end() {
    let mut a = ArrowShape { start: pt(10, 10), end: pt(40, 50), selected: true };
    a.update_resize(HandleId::Start, pt(5, 6), surface());
    assert_eq!(a.start, pt(5, 6));
    a.update_resize(HandleId::End, pt(1000, 1000), surface());
    assert_eq!(a.end, pt(800, 600));
    let before = a;
    a.update_resize(HandleId::Nw, pt(1, 1), surface());
    assert_eq!(a, before);
}
