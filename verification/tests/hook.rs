use winflow::mouse_hook::hook_step_in_range;
use winflow::input_inject::{button_input, MOUSEEVENTF_LEFTDOWN, MOUSEEVENTF_MIDDLEUP};
use winflow::actions::{Action, ClipRect};
use winflow::config::Config;
use winflow::mouse_hook::{
    clip_cursor_to_point, mouse_hook_step, reset_remote_state, send_mouse_button, wheel_delta, HookFlags,
    HookInput, WM_LBUTTONDOWN, WM_MBUTTONUP, WM_MOUSEMOVE, WM_MOUSEWHEEL,
};
use winflow::protocol::{Message, MouseButton};

fn cfg() -> Config {
    Config::with_defaults("PC".to_string())
}

fn event(event: u32, x: i32, y: i32) -> HookInput {
    HookInput { n_code: 0, active: true, event, x, y, mouse_data: 0, width: 1920, height: 1080 }
}

fn steady() -> HookFlags {
    HookFlags { suppress_next_move: false, cursor_clipped: true }
}

#[test]
fn clip_square_around_point() {
    assert_eq!(clip_cursor_to_point(100, 50), ClipRect { left: 98, top: 48, right: 102, bottom: 52 });
}

#[test]
fn wheel_delta_is_signed_high_word() {
    assert_eq!(wheel_delta(0x0078_0000), 120);
    assert_eq!(wheel_delta(0xFF88_0000), -120);
    assert_eq!(wheel_delta(0x0000_FFFF), 0);
}

#[test]
fn button_message() {
    assert_eq!(send_mouse_button(MouseButton::Middle, false), Message::MouseButton { button: MouseButton::Middle, down: false });
}

#[test]
fn reset_releases_clip_once() {
    let mut s = HookFlags { suppress_next_move: true, cursor_clipped: true };
    assert_eq!(reset_remote_state(&mut s), vec![Action::ReleaseClip]);
    assert_eq!(s, HookFlags::new());
    assert!(reset_remote_state(&mut s).is_empty());
}

#[test]
fn negative_code_passes_untouched() {
    let mut s = steady();
    let step = mouse_hook_step(Some(&cfg()), &mut s, &HookInput { n_code: -1, ..event(WM_MOUSEMOVE, 0, 0) });
    assert!(step.actions.is_empty());
    assert!(!step.swallow);
    assert_eq!(s, steady());
}

#[test]
fn inactive_hook_unclips_and_passes() {
    let mut s = steady();
    let step = mouse_hook_step(Some(&cfg()), &mut s, &HookInput { active: false, ..event(WM_MOUSEMOVE, 0, 0) });
    assert_eq!(step.actions, vec![Action::ReleaseClip]);
    assert!(!step.swallow);
    let mut s2 = steady();
    let step2 = mouse_hook_step(None, &mut s2, &event(WM_LBUTTONDOWN, 0, 0));
    assert_eq!(step2.actions, vec![Action::ReleaseClip]);
}

#[test]
fn first_event_parks_and_clips() {
    let mut s = HookFlags::new();
    let step = mouse_hook_step(Some(&cfg()), &mut s, &event(WM_MOUSEMOVE, 1900, 540));
    assert_eq!(
        step.actions,
        vec![Action::SetCursor(1840, 540), Action::ClipCursor(ClipRect { left: 1838, top: 538, right: 1842, bottom: 542 })]
    );
    assert!(step.swallow);
    assert_eq!(s, steady());
}

#[test]
fn motion_is_clamped_forwarded_and_echo_swallowed() {
    let mut s = steady();
    let step = mouse_hook_step(Some(&cfg()), &mut s, &event(WM_MOUSEMOVE, 0, 545));
    assert_eq!(
        step.actions,
        vec![
            Action::SendUdp(Message::MouseMove { dx: -160, dy: 5 }),
            Action::SetCursor(1840, 540),
            Action::ClipCursor(ClipRect { left: 1838, top: 538, right: 1842, bottom: 542 }),
        ]
    );
    assert!(step.swallow);
    assert!(s.suppress_next_move);
    let echo = mouse_hook_step(Some(&cfg()), &mut s, &event(WM_MOUSEMOVE, 1840, 540));
    assert!(echo.actions.is_empty());
    assert!(echo.swallow);
    assert!(!s.suppress_next_move);
}

#[test]
fn jitter_is_swallowed_silently() {
    let mut s = steady();
    let step = mouse_hook_step(Some(&cfg()), &mut s, &event(WM_MOUSEMOVE, 1841, 541));
    assert!(step.actions.is_empty());
    assert!(step.swallow);
}

#[test]
fn buttons_and_wheel_forwarded() {
    let mut s = steady();
    let b = mouse_hook_step(Some(&cfg()), &mut s, &event(WM_MBUTTONUP, 0, 0));
    assert_eq!(b.actions, vec![Action::SendUdp(Message::MouseButton { button: MouseButton::Middle, down: false })]);
    assert!(b.swallow);
    let w = mouse_hook_step(Some(&cfg()), &mut s, &HookInput { mouse_data: 0xFF88_0000, ..event(WM_MOUSEWHEEL, 0, 0) });
    assert_eq!(w.actions, vec![Action::SendUdp(Message::MouseWheel { delta: -120 })]);
    assert!(w.swallow);
}

#[test]
fn other_events_pass_on() {
    let mut s = steady();
    let step = mouse_hook_step(Some(&cfg()), &mut s, &event(0x020E, 0, 0));
    assert!(step.actions.is_empty());
    assert!(!step.swallow);
}

#[test]
fn hook_range_check() {
    assert!(hook_step_in_range(Some(&cfg()), &steady(), &event(WM_MOUSEMOVE, 0, 0)));
    assert!(!hook_step_in_range(Some(&cfg()), &steady(), &event(WM_MOUSEMOVE, i32::MIN, 0)));
    assert!(hook_step_in_range(None, &steady(), &event(WM_MOUSEMOVE, i32::MIN, 0)));
}

#[test]
fn forwarded_buttons_replay_with_matching_flags() {
    let mut s = steady();
    let step = mouse_hook_step(Some(&cfg()), &mut s, &event(WM_LBUTTONDOWN, 0, 0));
    if let Some(Action::SendUdp(Message::MouseButton { button, down })) = step.actions.last() {
        assert_eq!(button_input(*button, *down).flags, MOUSEEVENTF_LEFTDOWN);
    } else {
        panic!("no button message");
    }
    let step = mouse_hook_step(Some(&cfg()), &mut s, &event(WM_MBUTTONUP, 0, 0));
    if let Some(Action::SendUdp(Message::MouseButton { button, down })) = step.actions.last() {
        assert_eq!(button_input(*button, *down).flags, MOUSEEVENTF_MIDDLEUP);
    } else {
        panic!("no button message");
    }
}
