use winflow::input_inject::arrival_in_range;
use winflow::config::Config;
use winflow::cursor_switch::edge_triggered;
use winflow::input_inject::{
    arrival_point, button_input, moved_cursor, wheel_input, MouseInput, MOUSEEVENTF_LEFTDOWN,
    MOUSEEVENTF_MIDDLEUP, MOUSEEVENTF_RIGHTUP, MOUSEEVENTF_WHEEL,
};
use winflow::protocol::MouseButton;

#[test]
fn wheel_record_carries_twos_complement() {
    assert_eq!(wheel_input(120), MouseInput { dx: 0, dy: 0, mouse_data: 120, flags: MOUSEEVENTF_WHEEL });
    assert_eq!(wheel_input(-120), MouseInput { dx: 0, dy: 0, mouse_data: 0xFFFF_FF88, flags: MOUSEEVENTF_WHEEL });
}

#[test]
fn button_records() {
    assert_eq!(button_input(MouseButton::Left, true).flags, MOUSEEVENTF_LEFTDOWN);
    assert_eq!(button_input(MouseButton::Right, false).flags, MOUSEEVENTF_RIGHTUP);
    assert_eq!(button_input(MouseButton::Middle, false), MouseInput { dx: 0, dy: 0, mouse_data: 0, flags: MOUSEEVENTF_MIDDLEUP });
}

#[test]
fn arrival_points_per_edge() {
    assert_eq!(arrival_point("right", 1920, 1080), (40, 540));
    assert_eq!(arrival_point("left", 1920, 1080), (1880, 540));
    assert_eq!(arrival_point("top", 1920, 1080), (960, 1040));
    assert_eq!(arrival_point("bottom", 1920, 1080), (960, 40));
    assert_eq!(arrival_point("?", 1920, 1080), (960, 540));
}

#[test]
fn arrival_is_off_the_return_edge() {
    for (peer, here) in [("right", "left"), ("left", "right"), ("top", "bottom"), ("bottom", "top")] {
        let mut c = Config::with_defaults("PC".to_string());
        c.switch_edge = here.to_string();
        let (x, y) = arrival_point(peer, 1920, 1080);
        assert!(!edge_triggered(&c, x, y, 1920, 1080));
    }
}

#[test]
fn moved_cursor_adds() {
    assert_eq!(moved_cursor(100, 200, -5, 7), (95, 207));
}

#[test]
fn arrival_range_check() {
    assert!(arrival_in_range("left", 1920, 1080));
    assert!(!arrival_in_range("left", i32::MIN, 1080));
    assert!(arrival_in_range("right", i32::MIN, 1080));
}
