use rustshot::geometry::Point;
use rustshot::geometry::Rectangle;
use rustshot::geometry::ScaleFactor;
use rustshot::geometry::WindowGeometry;
use rustshot::capture::build_capture_region;
use rustshot::capture::region_fits;
use rustshot::capture::RegionError;
use rustshot::selection::Mode;
use rustshot::selection::SelectionState;

fn drag(state: &mut SelectionState, from: (i64, i64), to: (i64, i64)) {
    state.on_press(Point { x: from.0, y: from.1 });
    state.on_pointer_move(Point { x: to.0, y: to.1 });
    state.on_release();
}

#[test]
fn press_starts_fresh_drag() {
    let mut state = SelectionState::new();
    assert_eq!(state.mode, Mode::Idle);
    state.on_press(Point { x: 7, y: 9 });
    assert_eq!(state.mode, Mode::Dragging);
    let r = state.rect.unwrap();
    assert_eq!(r.a, Point { x: 7, y: 9 });
    assert_eq!(r.b, Point { x: 7, y: 9 });
}

#[test]
fn drag_updates_second_corner_only() {
    let mut state = SelectionState::new();
    state.on_press(Point { x: 10, y: 20 });
    state.on_pointer_move(Point { x: 30, y: 5 });
    state.on_pointer_move(Point { x: 40, y: 50 });
    let r = state.rect.unwrap();
    assert_eq!(r.a, Point { x: 10, y: 20 });
    assert_eq!(r.b, Point { x: 40, y: 50 });
    assert_eq!(state.mode, Mode::Dragging);
}

#[test]
fn release_retains_non_degenerate_selection() {
    let mut state = SelectionState::new();
    drag(&mut state, (10, 20), (40, 50));
    assert_eq!(state.mode, Mode::Idle);
    assert!(state.rect.is_some());
    assert!(state.anchor.is_none());
}

#[test]
fn release_drops_degenerate_selection() {
    let mut state = SelectionState::new();
    state.on_press(Point { x: 10, y: 20 });
    state.on_release();
    assert_eq!(state.mode, Mode::Idle);
    assert!(state.rect.is_none());
}

#[test]
fn release_drops_zero_height_selection() {
    let mut state = SelectionState::new();
    drag(&mut state, (10, 20), (40, 20));
    assert!(state.rect.is_none());
}

#[test]
fn press_inside_retained_selection_moves_it() {
    let mut state = SelectionState::new();
    drag(&mut state, (10, 10), (50, 40));
    state.on_press(Point { x: 20, y: 20 });
    assert_eq!(state.mode, Mode::Moving);
    let r = state.rect.unwrap();
    assert_eq!(r.a, Point { x: 10, y: 10 });
    assert_eq!(r.b, Point { x: 50, y: 40 });
    assert_eq!(state.anchor, Some(Point { x: 20, y: 20 }));
}

#[test]
fn press_on_boundary_of_retained_selection_moves_it() {
    let mut state = SelectionState::new();
    drag(&mut state, (10, 10), (50, 40));
    state.on_press(Point { x: 10, y: 40 });
    assert_eq!(state.mode, Mode::Moving);
}

#[test]
fn press_outside_retained_selection_starts_new_drag() {
    let mut state = SelectionState::new();
    drag(&mut state, (10, 10), (50, 40));
    state.on_press(Point { x: 60, y: 60 });
    assert_eq!(state.mode, Mode::Dragging);
    let r = state.rect.unwrap();
    assert_eq!(r.a, Point { x: 60, y: 60 });
    assert_eq!(r.b, Point { x: 60, y: 60 });
}

#[test]
fn moving_translates_whole_rectangle_and_keeps_size() {
    let mut state = SelectionState::new();
    drag(&mut state, (10, 10), (50, 40));
    state.on_press(Point { x: 20, y: 20 });
    state.on_pointer_move(Point { x: 25, y: 28 });
    let r = state.rect.unwrap();
    assert_eq!(r.a, Point { x: 15, y: 18 });
    assert_eq!(r.b, Point { x: 55, y: 48 });
    assert_eq!(state.anchor, Some(Point { x: 25, y: 28 }));
    // width and height are preserved exactly
    assert_eq!(r.b.x - r.a.x, 40);
    assert_eq!(r.b.y - r.a.y, 30);
}

#[test]
fn move_before_any_press_is_a_no_op() {
    let mut state = SelectionState::new();
    state.on_pointer_move(Point { x: 100, y: 100 });
    assert_eq!(state, SelectionState::new());
}

#[test]
fn commit_emits_normalized_rectangle_and_resets() {
    let mut state = SelectionState::new();
    drag(&mut state, (50, 40), (10, 10));
    let emitted = state.on_commit().unwrap();
    assert_eq!(emitted.top_left, Point { x: 10, y: 10 });
    assert_eq!(emitted.bottom_right, Point { x: 50, y: 40 });
    assert_eq!(state, SelectionState::new());
}

#[test]
fn commit_without_selection_changes_nothing() {
    let mut state = SelectionState::new();
    assert!(state.on_commit().is_none());
    assert_eq!(state, SelectionState::new());
}

#[test]
fn commit_with_degenerate_rectangle_changes_nothing() {
    let mut state = SelectionState::new();
    state.on_press(Point { x: 10, y: 20 });
    state.on_pointer_move(Point { x: 10, y: 50 });
    let before = state;
    assert!(state.on_commit().is_none());
    assert_eq!(state, before);
    assert_eq!(state.mode, Mode::Dragging);
}

#[test]
fn cancel_clears_everything() {
    let mut state = SelectionState::new();
    drag(&mut state, (10, 10), (50, 40));
    state.on_cancel();
    assert_eq!(state, SelectionState::new());
}

#[test]
fn commit_keyed_scenario_at_unit_scale() {
    // window size (800, 600), press (100, 100), move (300, 400), release,
    // commit; window position (50, 50), scale 1.0
    let mut state = SelectionState::new();
    drag(&mut state, (100, 100), (300, 400));
    let emitted = state.on_commit().unwrap();
    let rect = Rectangle { a: emitted.top_left, b: emitted.bottom_right };
    let geometry = WindowGeometry {
        pos_x: 50,
        pos_y: 50,
        width: 800,
        height: 600,
        scale: ScaleFactor::unit(),
    };
    assert!(region_fits(&rect, &geometry));
    let region = build_capture_region(&rect, &geometry).unwrap();
    assert_eq!(region.x, 150);
    assert_eq!(region.y, 150);
    assert_eq!(region.width, 200);
    assert_eq!(region.height, 300);
}

#[test]
fn commit_keyed_scenario_at_double_scale() {
    // the same drag under scale factor 2.0
    let mut state = SelectionState::new();
    drag(&mut state, (100, 100), (300, 400));
    let emitted = state.on_commit().unwrap();
    let rect = Rectangle { a: emitted.top_left, b: emitted.bottom_right };
    let geometry = WindowGeometry {
        pos_x: 50,
        pos_y: 50,
        width: 800,
        height: 600,
        scale: ScaleFactor::new(2, 1).unwrap(),
    };
    assert!(region_fits(&rect, &geometry));
    let region = build_capture_region(&rect, &geometry).unwrap();
    assert_eq!(region.x, 75);
    assert_eq!(region.y, 75);
    assert_eq!(region.width, 100);
    assert_eq!(region.height, 150);
}

#[test]
fn scaling_a_thin_selection_to_zero_is_rejected() {
    let rect = Rectangle { a: Point { x: 10, y: 10 }, b: Point { x: 11, y: 11 } };
    let geometry = WindowGeometry {
        pos_x: 0,
        pos_y: 0,
        width: 800,
        height: 600,
        scale: ScaleFactor::new(4, 1).unwrap(),
    };
    assert!(region_fits(&rect, &geometry));
    assert_eq!(build_capture_region(&rect, &geometry), Err(RegionError::DegenerateRegion));
}

#[test]
fn half_pixel_rounds_up_not_down_to_zero() {
    let rect = Rectangle { a: Point { x: 10, y: 10 }, b: Point { x: 11, y: 11 } };
    let geometry = WindowGeometry {
        pos_x: 0,
        pos_y: 0,
        width: 800,
        height: 600,
        scale: ScaleFactor::new(2, 1).unwrap(),
    };
    let region = build_capture_region(&rect, &geometry).unwrap();
    assert_eq!(region.width, 1);
    assert_eq!(region.height, 1);
}

#[test]
fn region_out_of_reach_of_capture_types_is_flagged() {
    let rect = Rectangle {
        a: Point { x: 0x4000_0000 - 1, y: 0 },
        b: Point { x: 0x4000_0000, y: 1 },
    };
    let geometry = WindowGeometry {
        pos_x: i32::MAX,
        pos_y: 0,
        width: 800,
        height: 600,
        scale: ScaleFactor::new(1, 16).unwrap(),
    };
    assert!(!region_fits(&rect, &geometry));
}
