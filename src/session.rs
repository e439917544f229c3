//! Lifecycle of one connection session and the routing of inbound frames.
use vstd::prelude::*;

use crate::status::same_text;

verus! {

/// Where a connection session is in its life.
#[derive(Clone, Copy, Debug, PartialEq, Eq, Structural)]
pub enum SessionState {
    /// Waiting for the credential to be checked.
    Connecting,
    /// Registered; the inbound and the outbound loop run.
    Active,
    /// One of the two loops ended; cleanup is under way.
    Closing,
    Closed,
}

/// What happened to a session.
#[derive(Clone, Copy, Debug, PartialEq, Eq, Structural)]
pub enum SessionEvent {
    TokenAccepted,
    TokenRejected,
    /// The inbound or the outbound loop finished, whichever came first.
    LoopEnded,
    /// The registration was removed and the offline notice sent.
    CleanedUp,
}

/// What the session's driver must do next.
#[derive(Clone, Copy, Debug, PartialEq, Eq, Structural)]
pub enum SessionAction {
    /// Refuse the connection as unauthorized.
    Reject,
    /// Register in the presence registry, then announce the user online.
    RegisterAndAnnounce,
    /// Stop observing the other loop, unregister, then announce the user offline.
    UnregisterAndAnnounce,
    Nothing,
}

/// The next state and action of a session on an event.
pub open spec fn session_transition(s: SessionState, e: SessionEvent) -> (SessionState, SessionAction) {
    match (s, e) {
        (SessionState::Connecting, SessionEvent::TokenAccepted) => (SessionState::Active, SessionAction::RegisterAndAnnounce),
        (SessionState::Connecting, SessionEvent::TokenRejected) => (SessionState::Closed, SessionAction::Reject),
        (SessionState::Active, SessionEvent::LoopEnded) => (SessionState::Closing, SessionAction::UnregisterAndAnnounce),
        (SessionState::Closing, SessionEvent::CleanedUp) => (SessionState::Closed, SessionAction::Nothing),
        _ => (s, SessionAction::Nothing),
    }
}

/// Advances a session on an event. An event that does not apply in the
/// current state (a second loop ending, say) changes nothing.
pub fn session_step(s: SessionState, e: SessionEvent) -> (r: (SessionState, SessionAction))
    ensures
        r == session_transition(s, e),
{
    match (s, e) {
        (SessionState::Connecting, SessionEvent::TokenAccepted) => (SessionState::Active, SessionAction::RegisterAndAnnounce),
        (SessionState::Connecting, SessionEvent::TokenRejected) => (SessionState::Closed, SessionAction::Reject),
        (SessionState::Active, SessionEvent::LoopEnded) => (SessionState::Closing, SessionAction::UnregisterAndAnnounce),
        (SessionState::Closing, SessionEvent::CleanedUp) => (SessionState::Closed, SessionAction::Nothing),
        _ => (s, SessionAction::Nothing),
    }
}

/// Cleanup runs at most once: whichever loop ends first starts it, and the
/// end of the other loop afterwards asks for nothing.
pub proof fn lemma_cleanup_once(e: SessionEvent)
    ensures
        session_transition(session_transition(SessionState::Active, SessionEvent::LoopEnded).0, e).1
            != SessionAction::UnregisterAndAnnounce,
        session_transition(SessionState::Closed, e).1 == SessionAction::Nothing,
{
}

/// The kind of a frame read from the socket.
#[derive(Clone, Copy, Debug, PartialEq, Eq, Structural)]
pub enum FrameKind {
    Text,
    Ping,
    Close,
    Other,
    ReadError,
}

/// What the inbound loop does with a frame.
#[derive(Clone, Copy, Debug, PartialEq, Eq, Structural)]
pub enum InboundAction {
    /// Parse the text as a command and hand it on.
    HandleCommand,
    /// Answer with a pong carrying the same data.
    Pong,
    /// End the inbound loop.
    Stop,
    Ignore,
}

pub open spec fn inbound_action_of(f: FrameKind) -> InboundAction {
    match f {
        FrameKind::Text => InboundAction::HandleCommand,
        FrameKind::Ping => InboundAction::Pong,
        FrameKind::Close => InboundAction::Stop,
        FrameKind::ReadError => InboundAction::Stop,
        FrameKind::Other => InboundAction::Ignore,
    }
}

pub fn inbound_action(f: FrameKind) -> (r: InboundAction)
    ensures
        r == inbound_action_of(f),
{
    match f {
        FrameKind::Text => InboundAction::HandleCommand,
        FrameKind::Ping => InboundAction::Pong,
        FrameKind::Close => InboundAction::Stop,
        FrameKind::ReadError => InboundAction::Stop,
        FrameKind::Other => InboundAction::Ignore,
    }
}

/// A client command, by its `message_type` tag.
#[derive(Clone, Copy, Debug, PartialEq, Eq, Structural)]
pub enum CommandKind {
    Ping,
    MarkTyping,
    SendMessage,
    UpdateStatus,
    /// An unrecognised tag: logged and ignored, the session stays open.
    Unknown,
}

pub open spec fn command_of(tag: Seq<char>) -> CommandKind {
    if tag == "ping"@ {
        CommandKind::Ping
    } else if tag == "mark_typing"@ {
        CommandKind::MarkTyping
    } else if tag == "send_message"@ {
        CommandKind::SendMessage
    } else if tag == "update_status"@ {
        CommandKind::UpdateStatus
    } else {
        CommandKind::Unknown
    }
}

/// The command that a `message_type` tag names.
pub fn command_kind(tag: &str) -> (r: CommandKind)
    ensures
        r == command_of(tag@),
{
    if same_text(tag, "ping") {
        CommandKind::Ping
    } else if same_text(tag, "mark_typing") {
        CommandKind::MarkTyping
    } else if same_text(tag, "send_message") {
        CommandKind::SendMessage
    } else if same_text(tag, "update_status") {
        CommandKind::UpdateStatus
    } else {
        CommandKind::Unknown
    }
}

} // verus!
