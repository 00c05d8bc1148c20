use winflow::config::{hostname_fallback, Config};
use winflow::control::{connect_target, on_message, LinkFlags, Notice};
use winflow::protocol::{Message, RuntimeConfigUpdate};

#[test]
fn defaults() {
    let c = Config::with_defaults("Desk".to_string());
    assert_eq!(c.device_name, "Desk");
    assert_eq!(c.tcp_port, 45455);
    assert_eq!(c.udp_port, 45456);
    assert_eq!(c.peer_ip, "127.0.0.1");
    assert_eq!(c.peer_tcp_port, 45455);
    assert_eq!(c.peer_udp_port, 45456);
    assert_eq!(c.switch_edge, "right");
    assert!(c.clipboard_enabled);
    assert!(c.drops_enabled);
    assert_eq!(c.drops_folder, "WinFlow Drops");
    assert_eq!(c.hotkey_switch, "Ctrl+Alt+Right");
    assert_eq!(c.hotkey_disconnect, "Shift+LeftAlt");
    assert!(!c.autostart_enabled);
}

#[test]
fn device_ids_are_fresh_uuids() {
    let a = Config::with_defaults("A".to_string()).device_id;
    let b = Config::with_defaults("A".to_string()).device_id;
    assert_eq!(a.len(), 36);
    assert_eq!(a.as_bytes()[8], b'-');
    assert_eq!(a.as_bytes()[14], b'4');
    assert_ne!(a, b);
}

#[test]
fn hostname_fallback_uses_given_name() {
    assert_eq!(hostname_fallback(Some("BOX".to_string())), "BOX");
    assert_eq!(hostname_fallback(None), "Windows-PC");
}

#[test]
fn runtime_update_changes_only_runtime_settings() {
    let mut c = Config::with_defaults("Desk".to_string());
    let before = c.clone();
    c.apply_update(RuntimeConfigUpdate {
        switch_edge: "left".to_string(),
        clipboard_enabled: false,
        hotkey_switch: "Ctrl+K".to_string(),
        hotkey_disconnect: "Alt+Q".to_string(),
    });
    assert_eq!(c.switch_edge, "left");
    assert!(!c.clipboard_enabled);
    assert_eq!(c.hotkey_switch, "Ctrl+K");
    assert_eq!(c.hotkey_disconnect, "Alt+Q");
    assert_eq!(c.device_id, before.device_id);
    assert_eq!(c.peer_ip, before.peer_ip);
    assert_eq!(c.drops_folder, before.drops_folder);
}

#[test]
fn incoming_messages_update_link() {
    let mut f = LinkFlags { connected: false, remote_mode: true };
    let r = on_message(&mut f, &Message::Ping);
    assert_eq!(r.reply, Some(Message::Pong));
    assert_eq!(r.notice, None);
    assert_eq!(f, LinkFlags { connected: true, remote_mode: true });
    let r = on_message(&mut f, &Message::EnterControl { edge: "left".to_string() });
    assert_eq!(r.notice, Some(Notice::CursorReceived));
    assert_eq!(f, LinkFlags { connected: true, remote_mode: false });
    f.remote_mode = true;
    let r = on_message(&mut f, &Message::Disconnect);
    assert_eq!(r.notice, Some(Notice::Disconnected));
    assert_eq!(f, LinkFlags { connected: false, remote_mode: false });
    let r = on_message(&mut f, &Message::Pong);
    assert_eq!(r.notice, Some(Notice::Connected));
    assert!(f.connected);
}

#[test]
fn no_incoming_message_turns_remote_mode_on() {
    let msgs = vec![
        Message::EnterControl { edge: "right".to_string() },
        Message::ExitControl,
        Message::ReturnControl,
        Message::MouseMove { dx: 1, dy: 1 },
        Message::Ping,
        Message::Pong,
        Message::Disconnect,
    ];
    for m in msgs {
        let mut f = LinkFlags { connected: true, remote_mode: false };
        on_message(&mut f, &m);
        assert!(!f.remote_mode);
    }
}

#[test]
fn command_line_target() {
    let args = |v: &[&str]| v.iter().map(|s| s.to_string()).collect::<Vec<String>>();
    assert_eq!(connect_target(&args(&["winflow", "--connect", "10.0.0.2"])), Some("10.0.0.2".to_string()));
    assert_eq!(connect_target(&args(&["winflow", "--connect", "10.0.0.2", "x"])), Some("10.0.0.2".to_string()));
    assert_eq!(connect_target(&args(&["winflow", "--connect"])), None);
    assert_eq!(connect_target(&args(&["winflow", "--listen", "1"])), None);
}
