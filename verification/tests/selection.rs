use annotation_editor::geometry::{HandleId, Point, Size, UNIT};
use annotation_editor::selection::{RegionMode, SelectionArea, SelectionRegion};

const HANDLE: i32 = 8 * UNIT;

fn pt(x: i32, y: i32) -> Point {
    Point { x: x * UNIT, y: y * UNIT }
}

fn surface() -> Size {
    Size { width: 800 * UNIT, height: 600 * UNIT }
}

fn drawn(a: Point, b: Point) -> SelectionRegion {
    let mut r = SelectionRegion::new();
    r.pointer_down(a, HANDLE);
    r.pointer_move(b, surface(), HANDLE);
    r.pointer_up();
    r
}

#[test]
fn press_without_a_region_begins_drawing() {
    let mut r = SelectionRegion::new();
    assert!(!r.is_selecting);
    r.pointer_down(pt(100, 100), HANDLE);
    assert!(r.is_selecting);
    assert_eq!(r.mode, RegionMode::Drawing);
    assert_eq!((r.start, r.current), (pt(100, 100), pt(100, 100)));
    r.pointer_move(pt(900, -20), surface(), HANDLE);
    assert_eq!(r.current, pt(900, -20));
}

#[test]
fn region_smaller_than_five_is_given_up() {
    let r = drawn(pt(100, 100), pt(103, 103));
    assert!(!r.is_selecting);
    assert_eq!(r.mode, RegionMode::Idle);
    let narrow = drawn(pt(100, 100), Point { x: 104_999, y: 200_000 });
    assert!(!narrow.is_selecting);
}

#[test]
fn region_of_five_is_kept() {
    let r = drawn(pt(100, 100), pt(105, 105));
    assert!(r.is_selecting);
    assert_eq!(r.mode, RegionMode::Idle);
    let back = drawn(pt(105, 105), pt(100, 100));
    assert!(back.is_selecting);
}

#[test]
fn area_is_normalized() {
    let r = drawn(pt(300, 400), pt(100, 150));
    assert_eq!(
        r.area(),
        Some(SelectionArea { x: 100_000, y: 150_000, width: 200_000, height: 250_000 })
    );
    assert_eq!(SelectionRegion::new().area(), None);
}

#[test]
fn press_on_a_handle_begins_resizing() {
    let mut r = drawn(pt(100, 100), pt(300, 200));
    r.pointer_down(pt(300, 200), HANDLE);
    assert_eq!(r.mode, RegionMode::Resizing);
    assert_eq!(r.active_handle, Some(HandleId::Se));
    r.pointer_move(pt(400, 300), surface(), HANDLE);
    assert_eq!((r.start, r.current), (pt(100, 100), pt(400, 300)));
    r.pointer_up();
    assert_eq!(r.mode, RegionMode::Idle);
    assert!(r.is_selecting);
}

#[test]
fn region_handle_uses_the_plain_handle_size() {
    let r = drawn(pt(100, 100), pt(300, 200));
    assert_eq!(r.handle_at(pt(104, 104), HANDLE), Some(HandleId::Nw));
    assert_eq!(r.handle_at(Point { x: 104_001, y: 104_000 }, HANDLE), None);
    assert_eq!(SelectionRegion::new().handle_at(pt(0, 0), HANDLE), None);
}

#[test]
fn resize_that_would_leave_less_than_ten_leaves_the_side() {
    let mut r = drawn(pt(100, 100), pt(300, 200));
    r.pointer_down(pt(300, 150), HANDLE);
    assert_eq!(r.active_handle, Some(HandleId::E));
    r.pointer_move(pt(105, 150), surface(), HANDLE);
    assert_eq!((r.start, r.current), (pt(100, 100), pt(300, 200)));
    r.pointer_move(pt(110, 150), surface(), HANDLE);
    assert_eq!((r.start, r.current), (pt(100, 100), pt(110, 200)));
}

#[test]
fn resize_by_a_corner_judges_each_axis_apart() {
    let mut r = drawn(pt(100, 100), pt(300, 200));
    r.pointer_down(pt(100, 100), HANDLE);
    assert_eq!(r.active_handle, Some(HandleId::Nw));
    r.pointer_move(pt(50, 195), surface(), HANDLE);
    assert_eq!((r.start, r.current), (pt(50, 100), pt(300, 200)));
}

#[test]
fn resize_keeps_the_sides_on_the_surface() {
    let mut r = drawn(pt(100, 100), pt(300, 200));
    r.pointer_down(pt(100, 150), HANDLE);
    r.pointer_move(pt(-40, 150), surface(), HANDLE);
    assert_eq!(r.start.x, 0);
    r.pointer_up();
    r.pointer_down(pt(300, 200), HANDLE);
    r.pointer_move(pt(5000, 5000), surface(), HANDLE);
    assert_eq!(r.current, pt(800, 600));
}

#[test]
fn resize_of_a_region_drawn_backwards_moves_the_named_side() {
    let mut r = drawn(pt(300, 200), pt(100, 100));
    r.pointer_down(pt(100, 150), HANDLE);
    assert_eq!(r.active_handle, Some(HandleId::W));
    r.pointer_move(pt(150, 150), surface(), HANDLE);
    assert_eq!((r.start, r.current), (pt(150, 100), pt(300, 200)));
}

#[test]
fn press_inside_begins_dragging() {
    let mut r = drawn(pt(100, 100), pt(300, 200));
    r.pointer_down(pt(150, 160), HANDLE);
    assert_eq!(r.mode, RegionMode::Dragging);
    assert_eq!((r.drag_offset.dx, r.drag_offset.dy), (50_000, 60_000));
    r.pointer_move(pt(250, 260), surface(), HANDLE);
    assert_eq!((r.start, r.current), (pt(200, 200), pt(400, 300)));
    r.pointer_move(pt(-500, 5000), surface(), HANDLE);
    assert_eq!((r.start, r.current), (pt(0, 500), pt(200, 600)));
    r.pointer_up();
    assert_eq!(r.mode, RegionMode::Idle);
}

#[test]
fn press_outside_a_region_does_nothing() {
    let mut r = drawn(pt(100, 100), pt(300, 200));
    let before = r;
    r.pointer_down(pt(500, 500), HANDLE);
    assert_eq!(r, before);
}

#[test]
fn move_while_idle_notes_the_handle_under_the_pointer() {
    let mut r = drawn(pt(100, 100), pt(300, 200));
    r.pointer_move(pt(200, 100), surface(), HANDLE);
    assert_eq!(r.active_handle, Some(HandleId::N));
    r.pointer_move(pt(200, 150), surface(), HANDLE);
    assert_eq!(r.active_handle, None);
}

#[test]
fn allowed_area_is_the_region_once_there_is_one() {
    let none = SelectionRegion::new();
    assert!(none.is_point_allowed(pt(1, 1)));
    assert!(!none.contains(pt(1, 1)));
    let r = drawn(pt(100, 100), pt(300, 200));
    assert!(r.is_point_allowed(pt(100, 200)));
    assert!(!r.is_point_allowed(pt(99, 200)));
    assert!(r.contains(pt(300, 100)));
}

#[test]
fn clear_gives_the_region_up() {
    let mut r = drawn(pt(100, 100), pt(300, 200));
    r.clear();
    assert!(!r.is_selecting);
    assert_eq!(r.area(), None);
}
