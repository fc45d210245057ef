use screen_calibrator::app::{grid_lines, AppState, Frame, LABEL_RISE};
use screen_calibrator::platform::Size;

fn state(top: i32, left: i32, right: i32, bottom: i32, grid: i32) -> AppState {
    AppState {
        margin_top: top,
        margin_left: left,
        margin_right: right,
        margin_bottom: bottom,
        grid_interval: grid,
    }
}

const SCREEN: Size = Size { width: 640, height: 480 };

#[test]
fn no_margins_frame_the_whole_surface() {
    let frame = AppState::default().frame(SCREEN);
    assert_eq!(frame, Some(Frame { x: 0, y: 0, width: 640, height: 480 }));
}

#[test]
fn margins_shrink_the_frame() {
    let frame = state(5, 10, 20, 7, 3).frame(SCREEN);
    assert_eq!(frame, Some(Frame { x: 10, y: 5, width: 610, height: 468 }));
}

#[test]
fn negative_margins_push_the_frame_off_the_surface() {
    let frame = state(-2, -1, -3, -4, 3).frame(SCREEN);
    assert_eq!(frame, Some(Frame { x: -1, y: -2, width: 644, height: 486 }));
}

#[test]
fn margins_that_meet_leave_an_empty_frame() {
    assert_eq!(
        state(0, 300, 340, 0, 3).frame(SCREEN),
        Some(Frame { x: 300, y: 0, width: 0, height: 480 })
    );
    assert_eq!(state(0, 300, 341, 0, 3).frame(SCREEN), None);
    assert_eq!(state(240, 0, 0, 241, 3).frame(SCREEN), None);
}

#[test]
fn frames_beyond_the_coordinate_range_are_refused() {
    let huge = Size { width: u32::MAX, height: 10 };
    assert_eq!(AppState::default().frame(huge), None);
    assert_eq!(state(0, 0, i32::MAX, 0, 3).frame(huge), None);
    let wide = Size { width: 1 << 31, height: 10 };
    assert_eq!(AppState::default().frame(wide), None);
    assert_eq!(
        state(0, 0, 1, 0, 3).frame(wide),
        Some(Frame { x: 0, y: 0, width: 2147483647, height: 10 })
    );
    assert_eq!(
        state(0, i32::MIN, 1, 0, 3).frame(wide),
        Some(Frame { x: i32::MIN, y: 0, width: u32::MAX, height: 10 })
    );
    assert_eq!(state(0, 0, i32::MIN, 0, 3).frame(SCREEN), None);
    assert_eq!(state(0, 0, 0, i32::MIN, 3).frame(SCREEN), None);
    assert_eq!(state(i32::MIN, 0, 0, i32::MAX, 3).frame(Size { width: 1, height: 0 }), None);
}

#[test]
fn label_sits_above_the_middle() {
    assert_eq!(LABEL_RISE, 70);
    let frame = Frame { x: 10, y: 5, width: 610, height: 468 };
    assert_eq!(frame.label_anchor(), (315, 169));
    let odd = Frame { x: -3, y: -9, width: 7, height: 1 };
    assert_eq!(odd.label_anchor(), (0, -79));
}

#[test]
fn grid_positions_step_by_the_interval() {
    assert_eq!(grid_lines(2, 10, 4), vec![2, 6, 10]);
    assert_eq!(grid_lines(2, 8, 4), vec![2, 6]);
    assert_eq!(grid_lines(2, 9, 4), vec![2, 6, 10]);
    assert_eq!(grid_lines(-5, 7, 3), vec![-5, -2, 1]);
    assert_eq!(grid_lines(0, 5, 1), vec![0, 1, 2, 3, 4]);
}

#[test]
fn grid_is_empty_without_a_positive_interval_or_extent() {
    assert_eq!(grid_lines(2, 10, 0), Vec::<i32>::new());
    assert_eq!(grid_lines(2, 10, -3), Vec::<i32>::new());
    assert_eq!(grid_lines(2, 0, 4), Vec::<i32>::new());
    assert_eq!(grid_lines(7, 3, i32::MAX), vec![7]);
    assert_eq!(grid_lines(i32::MAX - 4, 4, 3), vec![i32::MAX - 4, i32::MAX - 1]);
}

#[test]
fn default_grid_on_the_default_surface() {
    let s = AppState::default();
    let frame = match s.frame(SCREEN) {
        Some(frame) => frame,
        None => panic!("no frame"),
    };
    let columns = frame.columns(s.grid_interval);
    let rows = frame.rows(s.grid_interval);
    assert_eq!(columns.len(), 214);
    assert_eq!(columns[0], 0);
    assert_eq!(columns[1], 3);
    assert_eq!(columns[213], 639);
    assert_eq!(rows.len(), 160);
    assert_eq!(rows[159], 477);
}
