use screenshot_ocr::geometry::{Area, Position};

fn pos(x: i32, y: i32) -> Position {
    Position { x, y }
}

#[test]
fn width_and_height_ignore_drag_direction() {
    let a = Area { start: pos(10, 20), end: pos(40, 5) };
    let b = Area { start: pos(40, 5), end: pos(10, 20) };
    assert_eq!(a.get_width(), 30);
    assert_eq!(b.get_width(), 30);
    assert_eq!(a.get_height(), 15);
    assert_eq!(b.get_height(), 15);
    assert_eq!(a.top_left(), pos(10, 5));
    assert_eq!(b.top_left(), pos(10, 5));
}

#[test]
fn all_four_drag_directions_agree() {
    let corners = [
        Area { start: pos(1, 2), end: pos(7, 9) },
        Area { start: pos(7, 2), end: pos(1, 9) },
        Area { start: pos(1, 9), end: pos(7, 2) },
        Area { start: pos(7, 9), end: pos(1, 2) },
    ];
    for a in corners.iter() {
        assert_eq!(a.get_width(), 6);
        assert_eq!(a.get_height(), 7);
        assert_eq!(a.top_left(), pos(1, 2));
    }
}

#[test]
fn dimensions_at_extreme_coordinates() {
    let a = Area { start: pos(i32::MIN, i32::MAX), end: pos(i32::MAX, i32::MIN) };
    assert_eq!(a.get_width(), u32::MAX);
    assert_eq!(a.get_height(), u32::MAX);
    assert_eq!(a.top_left(), pos(i32::MIN, i32::MIN));
}

#[test]
fn degenerate_rectangle_has_zero_size() {
    let a = Area { start: pos(5, 5), end: pos(5, 5) };
    assert_eq!(a.get_width(), 0);
    assert_eq!(a.get_height(), 0);
}
