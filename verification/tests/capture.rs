use winflow::input_capture::send_due;
use winflow::input_capture::capture_step_in_range;
use winflow::actions::Action;
use winflow::config::Config;
use winflow::input_capture::{capture_step, reset_mouse_state, send_button_if_changed, CaptureInput, CaptureState};
use winflow::protocol::{Message, MouseButton};

fn cfg() -> Config {
    Config::with_defaults("PC".to_string())
}

fn input() -> CaptureInput {
    CaptureInput {
        connected: true,
        remote_mode: true,
        width: 1920,
        height: 1080,
        cursor: Some((1840, 540)),
        left: false,
        right: false,
        middle: false,
        send_due: true,
    }
}

fn capturing() -> CaptureState {
    CaptureState { was_remote: true, ..CaptureState::new() }
}

#[test]
fn reset_clears_everything() {
    let (mut a, mut b, mut c, mut d, mut e) = (true, true, true, true, true);
    reset_mouse_state(&mut a, &mut b, &mut c, &mut d, &mut e);
    assert!(!a && !b && !c && !d && !e);
}

#[test]
fn button_reported_only_on_change() {
    let mut prev = false;
    assert_eq!(
        send_button_if_changed(MouseButton::Left, true, &mut prev),
        Some(Message::MouseButton { button: MouseButton::Left, down: true })
    );
    assert!(prev);
    assert_eq!(send_button_if_changed(MouseButton::Left, true, &mut prev), None);
    assert_eq!(
        send_button_if_changed(MouseButton::Left, false, &mut prev),
        Some(Message::MouseButton { button: MouseButton::Left, down: false })
    );
    assert!(!prev);
}

#[test]
fn first_capture_tick_parks_cursor() {
    let mut s = CaptureState::new();
    let step = capture_step(&cfg(), &mut s, &input());
    assert_eq!(step.actions, vec![Action::SetCursor(1840, 540)]);
    assert_eq!(step.pause_ms, 24);
    assert!(s.was_remote && s.ignore_next_warp);
}

#[test]
fn echo_of_parking_is_ignored_but_buttons_reported() {
    let mut s = CaptureState { ignore_next_warp: true, ..capturing() };
    let step = capture_step(&cfg(), &mut s, &CaptureInput { cursor: Some((1900, 600)), right: true, ..input() });
    assert_eq!(
        step.actions,
        vec![Action::SendUdp(Message::MouseButton { button: MouseButton::Right, down: true })]
    );
    assert!(!s.ignore_next_warp);
    assert!(s.last_right);
}

#[test]
fn motion_is_sent_and_cursor_parked_again() {
    let mut s = capturing();
    let step = capture_step(&cfg(), &mut s, &CaptureInput { cursor: Some((1850, 530)), ..input() });
    assert_eq!(
        step.actions,
        vec![Action::SendUdp(Message::MouseMove { dx: 10, dy: -10 }), Action::SetCursor(1840, 540)]
    );
    assert!(step.restart_send_timer);
    assert_eq!(step.pause_ms, 8);
    assert!(s.ignore_next_warp);
}

#[test]
fn one_pixel_jitter_is_not_sent() {
    let mut s = capturing();
    let step = capture_step(&cfg(), &mut s, &CaptureInput { cursor: Some((1841, 539)), ..input() });
    assert!(step.actions.is_empty());
    assert!(!step.restart_send_timer);
}

#[test]
fn motion_waits_for_its_tick() {
    let mut s = capturing();
    let step = capture_step(&cfg(), &mut s, &CaptureInput { cursor: Some((1900, 540)), send_due: false, ..input() });
    assert!(step.actions.is_empty());
    assert!(!s.ignore_next_warp);
}

#[test]
fn leaving_remote_mode_resets() {
    let mut s = CaptureState { was_remote: true, ignore_next_warp: true, last_left: true, last_right: true, last_middle: true };
    let step = capture_step(&cfg(), &mut s, &CaptureInput { remote_mode: false, ..input() });
    assert!(step.actions.is_empty());
    assert_eq!(step.pause_ms, 8);
    assert_eq!(s, CaptureState::new());
    let mut s2 = capturing();
    let step2 = capture_step(&cfg(), &mut s2, &CaptureInput { connected: false, ..input() });
    assert_eq!(step2.pause_ms, 100);
    assert_eq!(s2, CaptureState::new());
}

#[test]
fn button_reports_alternate_across_ticks() {
    let mut s = capturing();
    let mut downs = Vec::new();
    for left in [true, true, false, false, true, false] {
        let step = capture_step(&cfg(), &mut s, &CaptureInput { left, ..input() });
        for a in step.actions {
            if let Action::SendUdp(Message::MouseButton { button: MouseButton::Left, down }) = a {
                downs.push(down);
            }
        }
    }
    assert_eq!(downs, vec![true, false, true, false]);
    assert!(!s.last_left);
}

#[test]
fn capture_range_check() {
    assert!(capture_step_in_range(&cfg(), &capturing(), &input()));
    assert!(!capture_step_in_range(&cfg(), &capturing(), &CaptureInput { cursor: Some((i32::MIN, 0)), ..input() }));
    assert!(capture_step_in_range(&cfg(), &capturing(), &CaptureInput { connected: false, cursor: Some((i32::MIN, 0)), ..input() }));
}

#[test]
fn motion_is_due_after_8_ms() {
    assert!(!send_due(0));
    assert!(!send_due(7_999_999));
    assert!(send_due(8_000_000));
    assert!(send_due(u64::MAX));
}
