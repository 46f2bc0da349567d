use annotation_editor::geometry::Point;
use annotation_editor::preview::{extract_selection_from_background, PreviewWindowState};

fn background(width: u32, height: u32) -> Vec<u8> {
    let mut data = Vec::new();
    for y in 0..height {
        for x in 0..width {
            data.push(x as u8);
            data.push(y as u8);
            data.push(7);
            data.push(255);
        }
    }
    data
}

#[test]
fn preview_window_show_and_close() {
    let mut w = PreviewWindowState::new(vec![1, 2, 3, 4, 5, 6, 7, 8], 2, 1);
    assert!(!w.is_visible());
    assert_eq!(w.position(), Point { x: 0, y: 0 });
    w.show();
    assert!(w.is_visible());
    assert_eq!((w.width(), w.height()), (2, 1));
    assert_eq!(w.pixels(), &vec![1, 2, 3, 4, 5, 6, 7, 8]);
    w.close();
    assert!(!w.is_visible());
    w.show();
    w.show();
    assert!(w.is_visible());
}

#[test]
fn preview_window_moves() {
    let mut w = PreviewWindowState::new(Vec::new(), 0, 0);
    w.set_position(Point { x: 10, y: 20 });
    w.move_window(5, -30);
    assert_eq!(w.position(), Point { x: 15, y: -10 });
    w.move_window(i32::MAX, 0);
    assert_eq!(w.position(), Point { x: 15, y: -10 });
}

#[test]
fn extract_copies_the_selected_pixels() {
    let bg = background(4, 3);
    let preview = extract_selection_from_background(&bg, 4, 3, 1, 1, 2, 2, 30, 40).unwrap();
    assert_eq!(
        preview.pixels(),
        &vec![1, 1, 7, 255, 2, 1, 7, 255, 1, 2, 7, 255, 2, 2, 7, 255]
    );
    assert_eq!((preview.width(), preview.height()), (2, 2));
    assert_eq!(preview.position(), Point { x: 30, y: 40 });
    assert!(preview.is_visible());
}

#[test]
fn extract_fills_what_lies_outside_with_zeros() {
    let bg = background(4, 3);
    let preview = extract_selection_from_background(&bg, 4, 3, 3, 2, 2, 2, 0, 0).unwrap();
    assert_eq!(
        preview.pixels(),
        &vec![3, 2, 7, 255, 0, 0, 0, 0, 0, 0, 0, 0, 0, 0, 0, 0]
    );
}

#[test]
fn extract_from_a_background_that_is_too_short() {
    let mut bg = background(4, 3);
    bg.truncate(4 * 4 * 2 + 6);
    let preview = extract_selection_from_background(&bg, 4, 3, 0, 2, 2, 1, 0, 0).unwrap();
    assert_eq!(preview.pixels(), &vec![0, 2, 7, 255, 0, 0, 0, 0]);
}

#[test]
fn extract_of_nothing_gives_no_preview() {
    let bg = background(4, 3);
    assert!(extract_selection_from_background(&bg, 4, 3, 0, 0, 0, 2, 0, 0).is_none());
    assert!(extract_selection_from_background(&bg, 4, 3, 0, 0, 2, 0, 0, 0).is_none());
}
