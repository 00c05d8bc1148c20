//! Sharing clipboard text: which local clipboard contents are sent to the
//! peer, so that each change goes out once and text that came from the
//! peer is not sent back.
use vstd::prelude::*;
use crate::config::Config;
use crate::digest::{hash_text, text_hash};
use crate::protocol::Message;

verus! {

/// Milliseconds between two looks at the clipboard while connected.
pub const CLIPBOARD_POLL_MS: u64 = 500;
/// Milliseconds between two looks at the link while disconnected.
pub const CLIPBOARD_IDLE_MS: u64 = 200;

/// Whether clipboard text is sent, given whether clipboard sharing is on,
/// the hash of the last text sent and the hash of the last text received
/// from the peer.
pub open spec fn clipboard_sends(enabled: bool, last_local: Seq<char>, text: Seq<char>, last_remote: Seq<char>) -> bool {
    enabled && text_hash(text) != last_local && text_hash(text) != last_remote
}

/// The hash of the last text sent, after looking at `text`.
pub open spec fn clipboard_last_sent(enabled: bool, last_local: Seq<char>, text: Seq<char>, last_remote: Seq<char>) -> Seq<char> {
    if clipboard_sends(enabled, last_local, text, last_remote) {
        text_hash(text)
    } else {
        last_local
    }
}

/// Looks at the local clipboard text: returns the message that shares it,
/// unless clipboard sharing is off in `cfg`, or its hash is that of the
/// last text sent or of the last text received from the peer; remembers
/// the hash of what it sends.
pub fn local_clipboard_message(
    cfg: &Config,
    last_local_hash: &mut String,
    text: String,
    last_remote_hash: &String,
) -> (r: Option<Message>)
    ensures
        final(last_local_hash)@ == clipboard_last_sent(
            cfg.clipboard_enabled,
            old(last_local_hash)@,
            text@,
            last_remote_hash@,
        ),
        match r {
            Some(m) => clipboard_sends(cfg.clipboard_enabled, old(last_local_hash)@, text@, last_remote_hash@) && (
            m matches Message::ClipboardText { text: t, hash: h } && t == text && h@ == text_hash(text@)),
            None => !clipboard_sends(cfg.clipboard_enabled, old(last_local_hash)@, text@, last_remote_hash@),
        },
{
    if !cfg.clipboard_enabled {
        return None;
    }
    let hash = hash_text(text.as_str());
    if !(hash == *last_local_hash) && !(hash == *last_remote_hash) {
        *last_local_hash = hash.clone();
        Some(Message::ClipboardText { text, hash })
    } else {
        None
    }
}

/// The same clipboard text is sent at most once in a row: looking at it
/// again right after sends nothing.
pub proof fn clipboard_change_sent_once(
    enabled: bool,
    last_local: Seq<char>,
    text: Seq<char>,
    last_remote: Seq<char>,
)
    ensures
        !clipboard_sends(enabled, clipboard_last_sent(enabled, last_local, text, last_remote), text, last_remote),
{
}

/// Text that arrived from the peer is not sent back to it.
pub proof fn remote_text_not_echoed(
    enabled: bool,
    last_local: Seq<char>,
    text: Seq<char>,
    last_remote: Seq<char>,
)
    requires
        last_remote == text_hash(text),
    ensures
        !clipboard_sends(enabled, last_local, text, last_remote),
        clipboard_last_sent(enabled, last_local, text, last_remote) == last_local,
{
}

/// With clipboard sharing off nothing is sent and nothing is remembered,
/// whatever the clipboard holds.
pub proof fn disabled_clipboard_sends_nothing(last_local: Seq<char>, text: Seq<char>, last_remote: Seq<char>)
    ensures
        !clipboard_sends(false, last_local, text, last_remote),
        clipboard_last_sent(false, last_local, text, last_remote) == last_local,
{
}

} // verus!
