use screen_calibrator::app::AppState;
use screen_calibrator::input::{Key, KeyEvent};

fn state(top: i32, left: i32, right: i32, bottom: i32, grid: i32) -> AppState {
    AppState {
        margin_top: top,
        margin_left: left,
        margin_right: right,
        margin_bottom: bottom,
        grid_interval: grid,
    }
}

fn after(event: KeyEvent) -> (AppState, bool) {
    let mut s = AppState::default();
    assert!(s.can_apply(event));
    let quit = s.apply(event);
    (s, quit)
}

#[test]
fn starts_without_margins() {
    assert_eq!(AppState::default(), state(0, 0, 0, 0, 3));
}

#[test]
fn direction_keys_shrink_margins() {
    assert_eq!(after(KeyEvent::Pressed(Key::Up)), (state(-1, 0, 0, 0, 3), false));
    assert_eq!(after(KeyEvent::Pressed(Key::Left)), (state(0, -1, 0, 0, 3), false));
    assert_eq!(after(KeyEvent::Pressed(Key::Right)), (state(0, 0, -1, 0, 3), false));
    assert_eq!(after(KeyEvent::Pressed(Key::Down)), (state(0, 0, 0, -1, 3), false));
}

#[test]
fn face_buttons_grow_margins() {
    assert_eq!(after(KeyEvent::Pressed(Key::X)), (state(1, 0, 0, 0, 3), false));
    assert_eq!(after(KeyEvent::Pressed(Key::Y)), (state(0, 1, 0, 0, 3), false));
    assert_eq!(after(KeyEvent::Pressed(Key::A)), (state(0, 0, 1, 0, 3), false));
    assert_eq!(after(KeyEvent::Pressed(Key::B)), (state(0, 0, 0, 1, 3), false));
}

#[test]
fn start_and_select_change_the_grid() {
    assert_eq!(after(KeyEvent::Pressed(Key::Start)), (state(0, 0, 0, 0, 4), false));
    assert_eq!(after(KeyEvent::Pressed(Key::Select)), (state(0, 0, 0, 0, 2), false));
}

#[test]
fn releasing_menu_quits() {
    assert_eq!(after(KeyEvent::Released(Key::Menu)), (state(0, 0, 0, 0, 3), true));
    assert_eq!(after(KeyEvent::Pressed(Key::Menu)), (state(0, 0, 0, 0, 3), false));
    assert_eq!(after(KeyEvent::Autorepeat(Key::Menu)), (state(0, 0, 0, 0, 3), false));
}

#[test]
fn other_events_change_nothing() {
    assert_eq!(after(KeyEvent::Released(Key::Left)), (state(0, 0, 0, 0, 3), false));
    assert_eq!(after(KeyEvent::Autorepeat(Key::Left)), (state(0, 0, 0, 0, 3), false));
    assert_eq!(after(KeyEvent::Pressed(Key::Unknown)), (state(0, 0, 0, 0, 3), false));
    assert_eq!(after(KeyEvent::Pressed(Key::L)), (state(0, 0, 0, 0, 3), false));
}

#[test]
fn limits_of_the_settings() {
    let low = state(i32::MIN, i32::MIN, i32::MIN, i32::MIN, i32::MIN);
    assert!(!low.can_apply(KeyEvent::Pressed(Key::Up)));
    assert!(!low.can_apply(KeyEvent::Pressed(Key::Left)));
    assert!(!low.can_apply(KeyEvent::Pressed(Key::Select)));
    assert!(low.can_apply(KeyEvent::Pressed(Key::X)));
    assert!(low.can_apply(KeyEvent::Released(Key::Up)));
    let high = state(i32::MAX, i32::MAX, i32::MAX, i32::MAX, i32::MAX);
    assert!(!high.can_apply(KeyEvent::Pressed(Key::B)));
    assert!(!high.can_apply(KeyEvent::Pressed(Key::Start)));
    assert!(high.can_apply(KeyEvent::Pressed(Key::Down)));
    let mut s = high;
    assert!(!s.apply(KeyEvent::Pressed(Key::Down)));
    assert_eq!(s.margin_bottom, i32::MAX - 1);
}
