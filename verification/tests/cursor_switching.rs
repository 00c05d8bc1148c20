use winflow::cursor_switch::cooldown_elapsed;
use winflow::cursor_switch::switch_step_in_range;
use winflow::actions::Action;
use winflow::config::Config;
use winflow::cursor_switch::{
    cursor_switch_step, edge_of, edge_triggered, enter_remote_mode, lock_point, return_control,
    safe_point, send_initial_push, Edge, SwitchInput,
};
use winflow::protocol::Message;

fn cfg(edge: &str) -> Config {
    let mut c = Config::with_defaults("PC".to_string());
    c.switch_edge = edge.to_string();
    c
}

fn input() -> SwitchInput {
    SwitchInput {
        connected: true,
        already_remote: false,
        disconnect_pressed: false,
        switch_pressed: false,
        cooldown_elapsed: true,
        cursor: Some((500, 500)),
        width: 1920,
        height: 1080,
    }
}

#[test]
fn edge_names() {
    assert_eq!(edge_of("right"), Edge::Right);
    assert_eq!(edge_of("left"), Edge::Left);
    assert_eq!(edge_of("top"), Edge::Top);
    assert_eq!(edge_of("bottom"), Edge::Bottom);
    assert_eq!(edge_of("Right"), Edge::Other);
}

#[test]
fn lock_points_per_edge() {
    assert_eq!(lock_point(&cfg("right"), 1920, 1080), (1840, 540));
    assert_eq!(lock_point(&cfg("left"), 1920, 1080), (80, 540));
    assert_eq!(lock_point(&cfg("top"), 1920, 1080), (960, 32));
    assert_eq!(lock_point(&cfg("bottom"), 1920, 1080), (960, 1048));
    assert_eq!(lock_point(&cfg("middle"), 1920, 1080), (960, 540));
}

#[test]
fn halves_round_towards_zero() {
    assert_eq!(lock_point(&cfg("none"), -3, 7), (-1, 3));
}

#[test]
fn safe_points_per_edge() {
    assert_eq!(safe_point(&cfg("right"), 1920, 1080), (1700, 540));
    assert_eq!(safe_point(&cfg("left"), 1920, 1080), (220, 540));
    assert_eq!(safe_point(&cfg("top"), 1920, 1080), (960, 180));
    assert_eq!(safe_point(&cfg("bottom"), 1920, 1080), (960, 900));
}

#[test]
fn edge_thresholds() {
    assert!(edge_triggered(&cfg("right"), 1910, 10, 1920, 1080));
    assert!(!edge_triggered(&cfg("right"), 1909, 10, 1920, 1080));
    assert!(edge_triggered(&cfg("left"), 10, 10, 1920, 1080));
    assert!(!edge_triggered(&cfg("left"), 11, 10, 1920, 1080));
    assert!(edge_triggered(&cfg("top"), 100, 6, 1920, 1080));
    assert!(!edge_triggered(&cfg("top"), 100, 7, 1920, 1080));
    assert!(edge_triggered(&cfg("bottom"), 100, 1066, 1920, 1080));
    assert!(!edge_triggered(&cfg("bottom"), 100, 1065, 1920, 1080));
    assert!(!edge_triggered(&cfg("nowhere"), 0, 0, 1920, 1080));
}

#[test]
fn parked_cursor_does_not_trigger_its_edge() {
    for e in ["right", "left", "top", "bottom"] {
        let c = cfg(e);
        let (x, y) = lock_point(&c, 1920, 1080);
        assert!(!edge_triggered(&c, x, y, 1920, 1080));
        let (x, y) = safe_point(&c, 1920, 1080);
        assert!(!edge_triggered(&c, x, y, 1920, 1080));
    }
}

#[test]
fn initial_push_per_edge() {
    assert_eq!(send_initial_push(&cfg("right")), Some(Message::MouseMove { dx: 36, dy: 0 }));
    assert_eq!(send_initial_push(&cfg("left")), Some(Message::MouseMove { dx: -36, dy: 0 }));
    assert_eq!(send_initial_push(&cfg("top")), Some(Message::MouseMove { dx: 0, dy: -36 }));
    assert_eq!(send_initial_push(&cfg("bottom")), Some(Message::MouseMove { dx: 0, dy: 36 }));
    assert_eq!(send_initial_push(&cfg("other")), None);
}

#[test]
fn entering_remote_mode() {
    assert_eq!(
        enter_remote_mode(&cfg("right"), 1920, 1080),
        vec![
            Action::SetRemoteMode(true),
            Action::SendUdp(Message::EnterControl { edge: "right".to_string() }),
            Action::SetCursor(1840, 540),
            Action::SendUdp(Message::MouseMove { dx: 36, dy: 0 }),
        ]
    );
    assert_eq!(
        enter_remote_mode(&cfg("x"), 100, 100),
        vec![
            Action::SetRemoteMode(true),
            Action::SendUdp(Message::EnterControl { edge: "x".to_string() }),
            Action::SetCursor(50, 50),
        ]
    );
}

#[test]
fn returning_control() {
    assert_eq!(
        return_control(&cfg("left"), 1920, 1080),
        vec![
            Action::SetRemoteMode(false),
            Action::ReleaseClip,
            Action::SendUdp(Message::ReturnControl),
            Action::SetCursor(220, 540),
        ]
    );
}

#[test]
fn lost_link_frees_cursor() {
    let step = cursor_switch_step(&cfg("right"), &SwitchInput { connected: false, switch_pressed: true, ..input() });
    assert_eq!(step.actions, vec![Action::ReleaseClip]);
    assert!(!step.restart_cooldown);
    assert_eq!(step.pause_ms, 80);
}

#[test]
fn disconnect_hotkey_wins() {
    let c = cfg("right");
    let step = cursor_switch_step(
        &c,
        &SwitchInput { disconnect_pressed: true, switch_pressed: true, ..input() },
    );
    assert_eq!(step.actions, return_control(&c, 1920, 1080));
    assert!(step.restart_cooldown);
    assert_eq!(step.pause_ms, 70);
}

#[test]
fn switch_hotkey_toggles() {
    let c = cfg("right");
    let on = cursor_switch_step(&c, &SwitchInput { switch_pressed: true, ..input() });
    assert_eq!(on.actions, enter_remote_mode(&c, 1920, 1080));
    let off = cursor_switch_step(&c, &SwitchInput { switch_pressed: true, already_remote: true, ..input() });
    assert_eq!(off.actions, return_control(&c, 1920, 1080));
}

#[test]
fn edge_hands_cursor_over() {
    let c = cfg("right");
    let step = cursor_switch_step(&c, &SwitchInput { cursor: Some((1915, 300)), ..input() });
    assert_eq!(step.actions, enter_remote_mode(&c, 1920, 1080));
    assert!(step.restart_cooldown);
    let remote = cursor_switch_step(&c, &SwitchInput { cursor: Some((1915, 300)), already_remote: true, ..input() });
    assert!(remote.actions.is_empty());
    let unread = cursor_switch_step(&c, &SwitchInput { cursor: None, ..input() });
    assert!(unread.actions.is_empty());
    assert_eq!(unread.pause_ms, 6);
}

#[test]
fn nothing_happens_during_cooldown() {
    let c = cfg("right");
    let step = cursor_switch_step(
        &c,
        &SwitchInput {
            cooldown_elapsed: false,
            disconnect_pressed: true,
            switch_pressed: true,
            cursor: Some((1919, 0)),
            ..input()
        },
    );
    assert!(step.actions.is_empty());
    assert!(!step.restart_cooldown);
    assert_eq!(step.pause_ms, 6);
}

#[test]
fn range_check_matches_precondition() {
    let c = cfg("right");
    assert!(switch_step_in_range(&c, &SwitchInput { switch_pressed: true, ..input() }));
    assert!(!switch_step_in_range(&c, &SwitchInput { switch_pressed: true, width: i32::MIN, ..input() }));
    assert!(switch_step_in_range(&c, &SwitchInput { connected: false, width: i32::MIN, ..input() }));
    assert!(!switch_step_in_range(&c, &SwitchInput { width: i32::MIN + 5, cursor: Some((i32::MAX, 0)), ..input() }));
    assert!(switch_step_in_range(&cfg("left"), &SwitchInput { switch_pressed: true, width: i32::MIN, ..input() }));
}

#[test]
fn cooldown_passes_strictly_after_260_ms() {
    assert!(!cooldown_elapsed(0));
    assert!(!cooldown_elapsed(260_000_000));
    assert!(cooldown_elapsed(260_000_001));
    assert!(cooldown_elapsed(u64::MAX));
}
