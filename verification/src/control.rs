//! How a machine reacts to what the peer sends: the link flags it keeps,
//! the reply it owes, and the status it reports to its user interface.
use vstd::prelude::*;
use crate::protocol::Message;
use crate::text::same_text;

verus! {

/// The state of the link that incoming messages change.
#[derive(Debug, Clone, Copy, PartialEq, Eq, Structural)]
pub struct LinkFlags {
    /// The peer answers.
    pub connected: bool,
    /// This machine's cursor is handed to the peer.
    pub remote_mode: bool,
}

/// A status the machine reports to its user interface.
#[derive(Debug, Clone, Copy, PartialEq, Eq, Structural)]
pub enum Notice {
    CursorReceived,
    CursorReturned,
    Disconnected,
    ConfigUpdated,
    Connected,
}

/// What a machine owes after an incoming message, besides carrying out the
/// message itself.
#[derive(Debug, Clone, PartialEq, Eq)]
pub struct Reaction {
    /// The message to send back over TCP, if any.
    pub reply: Option<Message>,
    /// The status to report, if any.
    pub notice: Option<Notice>,
}

/// The link flags after `m` arrives.
pub open spec fn flags_after(f: LinkFlags, m: Message) -> LinkFlags {
    match m {
        Message::EnterControl { .. } => LinkFlags { remote_mode: false, ..f },
        Message::ExitControl => LinkFlags { remote_mode: false, ..f },
        Message::ReturnControl => LinkFlags { remote_mode: false, ..f },
        Message::Disconnect => LinkFlags { connected: false, remote_mode: false },
        Message::Ping => LinkFlags { connected: true, ..f },
        Message::Pong => LinkFlags { connected: true, ..f },
        _ => f,
    }
}

/// The status reported when `m` arrives.
pub open spec fn notice_for(m: Message) -> Option<Notice> {
    match m {
        Message::EnterControl { .. } => Some(Notice::CursorReceived),
        Message::ReturnControl => Some(Notice::CursorReturned),
        Message::Disconnect => Some(Notice::Disconnected),
        Message::ConfigUpdate(_) => Some(Notice::ConfigUpdated),
        Message::Pong => Some(Notice::Connected),
        _ => None,
    }
}

/// Updates the link flags for an incoming message and says what to send
/// back and what to report: every handover message clears remote mode,
/// `Disconnect` also drops the link, `Ping` and `Pong` mark it up, and
/// `Ping` is answered with `Pong`.
pub fn on_message(flags: &mut LinkFlags, msg: &Message) -> (r: Reaction)
    ensures
        *final(flags) == flags_after(*old(flags), *msg),
        r.notice == notice_for(*msg),
        *msg is EnterControl ==> r.notice == Some(Notice::CursorReceived),
        *msg is ReturnControl ==> r.notice == Some(Notice::CursorReturned),
        *msg is Disconnect ==> r.notice == Some(Notice::Disconnected) && !final(flags).connected,
        *msg is Pong ==> r.notice == Some(Notice::Connected) && final(flags).connected,
        r.reply == (if *msg is Ping {
            Some(Message::Pong)
        } else {
            None
        }),
{
    match msg {
        Message::EnterControl { .. } => {
            flags.remote_mode = false;
            Reaction { reply: None, notice: Some(Notice::CursorReceived) }
        },
        Message::ExitControl => {
            flags.remote_mode = false;
            Reaction { reply: None, notice: None }
        },
        Message::ReturnControl => {
            flags.remote_mode = false;
            Reaction { reply: None, notice: Some(Notice::CursorReturned) }
        },
        Message::Disconnect => {
            flags.connected = false;
            flags.remote_mode = false;
            Reaction { reply: None, notice: Some(Notice::Disconnected) }
        },
        Message::ConfigUpdate(_) => Reaction { reply: None, notice: Some(Notice::ConfigUpdated) },
        Message::Ping => {
            flags.connected = true;
            Reaction { reply: Some(Message::Pong), notice: None }
        },
        Message::Pong => {
            flags.connected = true;
            Reaction { reply: None, notice: Some(Notice::Connected) }
        },
        _ => Reaction { reply: None, notice: None },
    }
}

/// No message from the peer ever hands this machine's cursor over: only the
/// local switch loop turns remote mode on.
pub proof fn peer_never_enters_remote_mode(f: LinkFlags, m: Message)
    ensures
        flags_after(f, m).remote_mode ==> f.remote_mode,
{
}

/// Each status names the one kind of message that causes it: the cursor
/// arriving is reported for `EnterControl` and only for it, the cursor
/// coming back for `ReturnControl` and only for it, the link dropping for
/// `Disconnect`, a new configuration for `ConfigUpdate`, the link coming
/// up for `Pong`; the handover messages are never passed over in silence.
pub proof fn notices_name_their_messages(m: Message)
    ensures
        notice_for(m) == Some(Notice::CursorReceived) <==> m is EnterControl,
        notice_for(m) == Some(Notice::CursorReturned) <==> m is ReturnControl,
        notice_for(m) == Some(Notice::Disconnected) <==> m is Disconnect,
        notice_for(m) == Some(Notice::ConfigUpdated) <==> m is ConfigUpdate,
        notice_for(m) == Some(Notice::Connected) <==> m is Pong,
        (m is EnterControl || m is ReturnControl || m is Disconnect) ==> notice_for(m) is Some,
{
}

/// The peer address given on the command line: `args` (program name
/// first) must hold `--connect` and the address, more arguments being
/// ignored; `None` when they do not.
pub fn connect_target(args: &Vec<String>) -> (r: Option<String>)
    ensures
        args@.len() >= 3 && args@[1]@ == "--connect"@ ==> r == Some(args@[2]),
        !(args@.len() >= 3 && args@[1]@ == "--connect"@) ==> r is None,
{
    if args.len() >= 3 && same_text(args[1].as_str(), "--connect") {
        Some(args[2].clone())
    } else {
        None
    }
}

} // verus!
