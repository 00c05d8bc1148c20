//! The effects that the decision functions ask the caller to carry out.
use vstd::prelude::*;
use crate::protocol::Message;

verus! {

/// A rectangle of screen coordinates, edges included.
#[derive(Debug, Clone, Copy, PartialEq, Eq, Structural)]
pub struct ClipRect {
    pub left: i32,
    pub top: i32,
    pub right: i32,
    pub bottom: i32,
}

/// One effect on the machine or the peer.
#[derive(Debug, Clone, PartialEq, Eq)]
pub enum Action {
    /// Set the shared remote-mode flag.
    SetRemoteMode(bool),
    /// Send a message to the peer over UDP.
    SendUdp(Message),
    /// Move the cursor to a screen position.
    SetCursor(i32, i32),
    /// Confine the cursor to a rectangle.
    ClipCursor(ClipRect),
    /// Free the cursor from any confinement.
    ReleaseClip,
}

} // verus!
