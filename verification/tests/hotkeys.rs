use winflow::hotkey::hotkey_keys_from_lowered;
use winflow::hotkey::{hotkey_keys, hotkey_pressed, VK_A, VK_CONTROL, VK_LMENU, VK_MENU, VK_RIGHT, VK_SHIFT};

#[test]
fn default_switch_hotkey_names_ctrl_alt_right() {
    assert_eq!(hotkey_keys("Ctrl+Alt+Right"), Some(vec![VK_CONTROL, VK_MENU, VK_RIGHT]));
}

#[test]
fn default_disconnect_hotkey_names_shift_left_alt() {
    assert_eq!(hotkey_keys("Shift+LeftAlt"), Some(vec![VK_SHIFT, VK_LMENU]));
}

#[test]
fn hotkey_parts_are_trimmed_lowercased_and_spaceless() {
    assert_eq!(hotkey_keys(" CTRL +\tLeft Alt "), Some(vec![VK_CONTROL, VK_LMENU]));
    assert_eq!(hotkey_keys("control+z"), Some(vec![VK_CONTROL, 0x5A]));
    assert_eq!(hotkey_keys("a"), Some(vec![VK_A]));
}

#[test]
fn empty_hotkey_parts_are_skipped() {
    assert_eq!(hotkey_keys("ctrl++a+"), Some(vec![VK_CONTROL, VK_A]));
}

#[test]
fn hotkey_naming_nothing_is_refused() {
    assert_eq!(hotkey_keys(""), None);
    assert_eq!(hotkey_keys("+ + "), None);
    assert!(!hotkey_pressed("", &vec![VK_CONTROL]));
}

#[test]
fn hotkey_with_unknown_part_is_refused() {
    assert_eq!(hotkey_keys("Ctrl+Foo"), None);
    assert_eq!(hotkey_keys("F1"), None);
    assert!(!hotkey_pressed("Ctrl+Foo", &vec![VK_CONTROL]));
}

#[test]
fn hotkey_pressed_needs_every_key() {
    let all = vec![VK_CONTROL, VK_MENU, VK_RIGHT];
    assert!(hotkey_pressed("Ctrl+Alt+Right", &all));
    assert!(!hotkey_pressed("Ctrl+Alt+Right", &vec![VK_CONTROL, VK_RIGHT]));
    assert!(!hotkey_pressed("Ctrl+Alt+Right", &vec![]));
}

#[test]
fn hotkey_stays_pressed_when_more_keys_go_down() {
    let down = vec![VK_SHIFT, VK_LMENU];
    let more = vec![VK_SHIFT, VK_LMENU, VK_A, VK_CONTROL];
    assert!(hotkey_pressed("Shift+LeftAlt", &down));
    assert!(hotkey_pressed("Shift+LeftAlt", &more));
}

#[test]
fn keys_from_lowered_parts() {
    let parts = |v: &[&str]| v.iter().map(|s| s.to_string()).collect::<Vec<String>>();
    assert_eq!(hotkey_keys_from_lowered(&parts(&["ctrl", "left alt", "right"])), Some(vec![VK_CONTROL, VK_LMENU, VK_RIGHT]));
    assert_eq!(hotkey_keys_from_lowered(&parts(&["", "  ", "shift"])), Some(vec![VK_SHIFT]));
    assert_eq!(hotkey_keys_from_lowered(&parts(&["CTRL"])), None);
    assert_eq!(hotkey_keys_from_lowered(&parts(&["", ""])), None);
    assert_eq!(hotkey_keys_from_lowered(&parts(&[])), None);
}

#[test]
fn ascii_hotkeys_ignore_case() {
    for raw in ["Ctrl+Alt+Right", "shift+leftalt", " c T r L + Z "] {
        assert_eq!(hotkey_keys(raw), hotkey_keys(&raw.to_ascii_uppercase()));
        assert_eq!(hotkey_keys(raw), hotkey_keys(&raw.to_ascii_lowercase()));
    }
}

#[test]
fn joined_hotkeys_need_both() {
    let down = vec![VK_CONTROL, VK_A];
    assert!(hotkey_pressed("Ctrl+A", &down));
    assert!(hotkey_pressed("Ctrl", &down) && hotkey_pressed("A", &down));
    assert!(!hotkey_pressed("Ctrl+Shift", &down));
    assert_eq!(hotkey_pressed("A+Ctrl", &down), hotkey_pressed("Ctrl+A", &down));
    assert_eq!(hotkey_pressed("Ctrl+Ctrl", &down), hotkey_pressed("Ctrl", &down));
}
