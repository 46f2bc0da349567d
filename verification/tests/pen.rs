use annotation_editor::geometry::{Point, UNIT};
use annotation_editor::pen::{compute_bounds, compute_commands, PathBounds, PenPath};

fn pt(x: i32, y: i32) -> Point {
    Point { x: x * UNIT, y: y * UNIT }
}

fn path(points: Vec<Point>) -> PenPath {
    PenPath::new(points, String::from("#ff0044"), 3 * UNIT)
}

#[test]
fn command_starts_with_m_10_10_when_the_first_point_is_extremal() {
    let mut p = path(vec![pt(100, 200), pt(130, 240), pt(110, 260)]);
    assert_eq!(p.get_commands(), "M 10 10 L 40 50 L 20 70");
    assert!(p.get_commands().starts_with("M 10 10"));
}

#[test]
fn command_of_a_single_point() {
    assert_eq!(path(vec![pt(7, 9)]).get_commands(), "M 10 10");
}

#[test]
fn command_when_the_first_point_is_not_extremal() {
    let mut p = path(vec![pt(5, 5), pt(0, 0)]);
    assert_eq!(p.get_commands(), "M 15 15 L 10 10");
}

#[test]
fn command_writes_fractions_without_trailing_zeros() {
    let points = vec![
        Point { x: 0, y: 0 },
        Point { x: 2_500, y: 3_000 },
        Point { x: 50, y: 1 },
        Point { x: 120, y: 100_000 },
    ];
    assert_eq!(compute_commands(&points), "M 10 10 L 12.5 13 L 10.05 10.001 L 10.12 110");
}

#[test]
fn command_of_no_points_is_empty() {
    assert_eq!(compute_commands(&Vec::new()), "");
    assert_eq!(
        compute_bounds(&Vec::new()),
        PathBounds { min_x: 0, max_x: 0, min_y: 0, max_y: 0 }
    );
}

#[test]
fn command_for_the_widest_stroke() {
    let points = vec![Point { x: i32::MIN, y: 0 }, Point { x: i32::MAX, y: 0 }];
    assert_eq!(compute_commands(&points), "M 10 10 L 4294977.295 10");
}

#[test]
fn bounds_cover_all_points() {
    let mut p = path(vec![pt(5, 9), pt(-3, 4), pt(8, -2), pt(0, 0)]);
    assert_eq!(
        p.get_bounds(),
        PathBounds { min_x: -3_000, max_x: 8_000, min_y: -2_000, max_y: 9_000 }
    );
}

#[test]
fn adding_a_point_brings_bounds_and_command_up_to_date_on_the_next_read() {
    let mut p = path(vec![pt(10, 10), pt(20, 20)]);
    assert_eq!(p.get_commands(), "M 10 10 L 20 20");
    p.add_point(pt(0, 30));
    assert_eq!(p.get_commands(), "M 20 10 L 30 20 L 10 30");
    assert_eq!(
        p.get_bounds(),
        PathBounds { min_x: 0, max_x: 20_000, min_y: 10_000, max_y: 30_000 }
    );
    p.recalculate_bounds_and_commands();
    assert_eq!(p.get_commands(), "M 20 10 L 30 20 L 10 30");
    assert_eq!(p.len(), 3);
    assert_eq!(p.point(2), pt(0, 30));
}

#[test]
fn extend_one_unit_apart_adds_only_one_point() {
    let mut p = path(Vec::new());
    p.begin(pt(0, 0));
    p.extend(pt(10, 0));
    p.extend(pt(11, 0));
    assert_eq!(p.points(), &vec![pt(0, 0), pt(10, 0)]);
}

#[test]
fn extend_needs_two_units() {
    let mut p = path(Vec::new());
    p.begin(pt(0, 0));
    p.extend(Point { x: 1_999, y: 0 });
    assert_eq!(p.len(), 1);
    p.extend(Point { x: 2_000, y: 0 });
    assert_eq!(p.len(), 2);
    p.extend(Point { x: 3_200, y: 1_600 });
    assert_eq!(p.len(), 3);
    p.extend(Point { x: 4_400, y: 3_199 });
    assert_eq!(p.len(), 3);
}

#[test]
fn extend_on_an_empty_stroke_adds_the_point() {
    let mut p = path(Vec::new());
    p.extend(pt(4, 4));
    assert_eq!(p.points(), &vec![pt(4, 4)]);
}

#[test]
fn begin_starts_anew() {
    let mut p = path(vec![pt(1, 1), pt(5, 5)]);
    p.begin(pt(9, 9));
    assert_eq!(p.points(), &vec![pt(9, 9)]);
    assert_eq!(p.get_commands(), "M 10 10");
    assert_eq!(p.color(), "#ff0044");
    assert_eq!(p.width(), 3_000);
}

#[test]
fn take_hands_out_the_stroke_and_leaves_an_empty_one() {
    let mut p = path(vec![pt(1, 1), pt(5, 5)]);
    let mut taken = p.take();
    assert_eq!(taken.points(), &vec![pt(1, 1), pt(5, 5)]);
    assert_eq!(taken.get_commands(), "M 10 10 L 14 14");
    assert_eq!(taken.color(), "#ff0044");
    assert_eq!(p.len(), 0);
    assert_eq!(p.get_commands(), "");
    p.clear();
    assert_eq!(p.len(), 0);
}
