//! Client commands and the events pushed to connected sessions.
use vstd::prelude::*;

verus! {

/// Payload of a `send_message` command.
#[derive(Debug)]
pub struct SendMessageData {
    pub message_id: String,
    pub receiver_id: String,
    /// Client-defined content type (`type` on the wire).
    pub kind: String,
    /// Base64 of the encrypted payload.
    pub encrypted_content: String,
    /// Base64 of the initialization vector.
    pub iv: String,
}

/// Payload of an `update_status` command.
#[derive(Debug)]
pub struct UpdateStatusData {
    pub message_id: String,
    pub status: String,
}

/// A full snapshot of a newly sent message, as pushed to its receiver.
#[derive(Debug)]
pub struct MessageNotification {
    pub id: String,
    pub timestamp: String,
    pub sender_id: String,
    pub receiver_id: String,
    pub status: String,
    /// Client-defined content type (`type` on the wire).
    pub kind: String,
    pub encrypted_content: String,
    pub iv: String,
}

/// A change of delivery status and who caused it.
#[derive(Debug)]
pub struct StatusUpdate {
    pub message_id: String,
    pub status: String,
    pub updated_by: String,
}

/// An event pushed into a session's outbound queue.
#[derive(Debug)]
pub enum WSEvent {
    NewMessage(MessageNotification),
    StatusUpdate(StatusUpdate),
    UserOnline(String),
    UserOffline(String),
}

/// Query parameters of the connection upgrade request.
#[derive(Debug)]
pub struct WSQueryParams {
    pub token: String,
}

impl MessageNotification {
    pub fn duplicate(&self) -> (r: Self)
        ensures
            r == *self,
    {
        MessageNotification {
            id: self.id.clone(),
            timestamp: self.timestamp.clone(),
            sender_id: self.sender_id.clone(),
            receiver_id: self.receiver_id.clone(),
            status: self.status.clone(),
            kind: self.kind.clone(),
            encrypted_content: self.encrypted_content.clone(),
            iv: self.iv.clone(),
        }
    }
}

impl StatusUpdate {
    pub fn duplicate(&self) -> (r: Self)
        ensures
            r == *self,
    {
        StatusUpdate {
            message_id: self.message_id.clone(),
            status: self.status.clone(),
            updated_by: self.updated_by.clone(),
        }
    }
}

impl WSEvent {
    /// An equal copy of the event, for pushing one event into several queues.
    pub fn duplicate(&self) -> (r: Self)
        ensures
            r == *self,
    {
        match self {
            WSEvent::NewMessage(n) => WSEvent::NewMessage(n.duplicate()),
            WSEvent::StatusUpdate(u) => WSEvent::StatusUpdate(u.duplicate()),
            WSEvent::UserOnline(u) => WSEvent::UserOnline(u.clone()),
            WSEvent::UserOffline(u) => WSEvent::UserOffline(u.clone()),
        }
    }

    /// The `message_type` tag of the wire frame that carries the event.
    pub open spec fn tag(self) -> Seq<char> {
        match self {
            WSEvent::NewMessage(_) => "new_message"@,
            WSEvent::StatusUpdate(_) => "status_update"@,
            WSEvent::UserOnline(_) => "user_online"@,
            WSEvent::UserOffline(_) => "user_offline"@,
        }
    }

    pub fn message_type(&self) -> (r: String)
        ensures
            r@ == self.tag(),
    {
        match self {
            WSEvent::NewMessage(_) => "new_message".to_owned(),
            WSEvent::StatusUpdate(_) => "status_update".to_owned(),
            WSEvent::UserOnline(_) => "user_online".to_owned(),
            WSEvent::UserOffline(_) => "user_offline".to_owned(),
        }
    }
}

} // verus!
