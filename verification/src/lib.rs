//! The decision logic of a two-machine mouse and clipboard sharing tool:
//! which messages go to the peer, where the cursor is parked and released,
//! how hotkeys and screen edges trigger a switch, and how clipboard text
//! and dropped files are hashed and encoded for the wire.
pub mod text;
pub mod hotkey;
pub mod protocol;
pub mod config;
pub mod actions;
pub mod timer;
pub mod cursor_switch;
pub mod input_capture;
pub mod mouse_hook;
pub mod input_inject;
pub mod digest;
pub mod clipboard;
pub mod file_drop;
pub mod control;
