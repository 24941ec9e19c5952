use screenshot_ocr::geometry::{Area, Position};
use screenshot_ocr::selection::{AreaSelectionFeature, Outline, SelectionState};

fn pos(x: i32, y: i32) -> Position {
    Position { x, y }
}

#[test]
fn anchor_stays_on_first_move() {
    let mut f = AreaSelectionFeature::new();
    assert!(f.record_area_selection(pos(10, 10)));
    assert!(f.record_area_selection(pos(50, 60)));
    assert!(f.record_area_selection(pos(30, 40)));
    let done = f.stop_recording_area_selection();
    let expected = Area { start: pos(10, 10), end: pos(30, 40) };
    assert_eq!(done, Some(expected));
    assert_eq!(f.state, SelectionState::Finalized(expected));
}

#[test]
fn release_without_moves_completes_nothing() {
    let mut f = AreaSelectionFeature::default();
    assert_eq!(f.stop_recording_area_selection(), None);
    assert_eq!(f.state, SelectionState::Idle);
    assert_eq!(f.selected_area(), None);
}

#[test]
fn finished_selection_ignores_later_events() {
    let mut f = AreaSelectionFeature::new();
    f.record_area_selection(pos(1, 1));
    f.record_area_selection(pos(4, 4));
    assert!(f.stop_recording_area_selection().is_some());
    assert!(!f.record_area_selection(pos(9, 9)));
    assert_eq!(f.stop_recording_area_selection(), None);
    assert_eq!(f.selected_area(), Some(Area { start: pos(1, 1), end: pos(4, 4) }));
}

#[test]
fn outline_is_normalized() {
    let mut f = AreaSelectionFeature::new();
    assert_eq!(f.draw_selected_area(), None);
    f.record_area_selection(pos(100, 80));
    f.record_area_selection(pos(20, 50));
    assert_eq!(
        f.draw_selected_area(),
        Some(Outline { x: 20, y: 50, width: 80, height: 30 })
    );
}
