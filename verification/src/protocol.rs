//! The messages that the two machines exchange.
use vstd::prelude::*;

verus! {

/// A mouse button.
#[derive(Debug, Clone, Copy, PartialEq, Eq, Structural)]
pub enum MouseButton {
    Left,
    Right,
    Middle,
}

/// The part of the configuration that a running peer may change.
#[derive(Debug, Clone, PartialEq, Eq)]
pub struct RuntimeConfigUpdate {
    pub switch_edge: String,
    pub clipboard_enabled: bool,
    pub hotkey_switch: String,
    pub hotkey_disconnect: String,
}

/// A message between the two machines.
#[derive(Debug, Clone, PartialEq, Eq)]
pub enum Message {
    /// The sender hands the cursor over at the named edge of its screen.
    EnterControl { edge: String },
    /// The sender leaves remote control.
    ExitControl,
    /// The sender takes the cursor back.
    ReturnControl,
    /// The receiver should open this address.
    OpenUrl { url: String },
    /// Relative cursor motion.
    MouseMove { dx: i32, dy: i32 },
    /// A button went down or up.
    MouseButton { button: MouseButton, down: bool },
    /// Wheel rotation, in the units of the platform's wheel delta.
    MouseWheel { delta: i32 },
    /// New clipboard text and its hash.
    ClipboardText { text: String, hash: String },
    /// Liveness probe.
    Ping,
    /// Answer to `Ping`.
    Pong,
    /// The sender disconnects.
    Disconnect,
    /// New runtime settings.
    ConfigUpdate(RuntimeConfigUpdate),
    /// A dropped file starts: its transfer id, name, size in bytes and
    /// the lowercase hex SHA-256 of its content.
    DropStart { id: String, name: String, size: u64, sha256: String },
    /// The next piece of a dropped file, in standard base64.
    DropChunk { id: String, data_b64: String },
    /// The dropped file is complete.
    DropEnd { id: String },
}

/// A message as it travels, with the token that authenticates it.
#[derive(Debug, Clone, PartialEq, Eq)]
pub struct WireMessage {
    pub token: String,
    pub message: Message,
}

} // verus!
