//! Message delivery engine: validates client commands, applies them to the
//! store, and decides which sessions are told what.
use vstd::prelude::*;

use crate::codec::{base64_decoded, base64_of, decode_base64, id_text, parse_id, uuid_parsed, uuid_text};
use crate::events::{MessageNotification, SendMessageData, StatusUpdate, UpdateStatusData, WSEvent};
use crate::registry::push_to_user;
use crate::status::{parse_status, requested_status, MessageStatus};
use crate::store::MessageRow;

verus! {

/// Delay between a message being marked read and its deletion from the store.
pub const DELETION_GRACE_MILLIS: i64 = 5000;

/// Why a `send_message` command was refused.
#[derive(Clone, Copy, Debug, PartialEq, Eq, Structural)]
pub enum SendError {
    InvalidReceiverId,
    InvalidMessageId,
    InvalidContent,
    InvalidIv,
    /// The store refused the row: a message with that identifier exists.
    StoreRejected,
}

/// Why an `update_status` command was refused.
#[derive(Clone, Copy, Debug, PartialEq, Eq, Structural)]
pub enum StatusError {
    InvalidMessageId,
    InvalidStatus,
    NotFound,
    /// Only the receiver of a message may mark it read.
    NotReceiver,
}

/// An event addressed to one user's registered session.
#[derive(Debug)]
pub struct Delivery {
    pub user: u128,
    pub event: WSEvent,
}

/// Which check a `send_message` payload fails first, if any.
pub open spec fn send_rejection(data: SendMessageData) -> Option<SendError> {
    if uuid_parsed(data.receiver_id@) is None {
        Some(SendError::InvalidReceiverId)
    } else if uuid_parsed(data.message_id@) is None {
        Some(SendError::InvalidMessageId)
    } else if base64_decoded(data.encrypted_content@) is None {
        Some(SendError::InvalidContent)
    } else if base64_decoded(data.iv@) is None {
        Some(SendError::InvalidIv)
    } else {
        None
    }
}

/// Whether `row` is the new message that `sender` asked for with `data` at
/// time `timestamp`. The stored binary fields encode back to the text sent.
pub open spec fn row_for_command(row: MessageRow, sender: u128, data: SendMessageData, timestamp: i64) -> bool {
    &&& Some(row.id) == uuid_parsed(data.message_id@)
    &&& Some(row.receiver_id) == uuid_parsed(data.receiver_id@)
    &&& row.sender_id == sender
    &&& row.timestamp == timestamp
    &&& row.status == MessageStatus::Sent
    &&& row.kind@ == data.kind@
    &&& Some(row.encrypted_content@) == base64_decoded(data.encrypted_content@)
    &&& Some(row.iv@) == base64_decoded(data.iv@)
    &&& base64_of(row.encrypted_content@) == data.encrypted_content@
    &&& base64_of(row.iv@) == data.iv@
}

/// The row for a `send_message` command from `sender` at time `timestamp`,
/// or the first check its payload fails.
pub fn new_message_row(sender: u128, data: &SendMessageData, timestamp: i64) -> (r: Result<MessageRow, SendError>)
    ensures
        send_rejection(*data) is None <==> r is Ok,
        r matches Err(e) ==> send_rejection(*data) == Some(e),
        r matches Ok(row) ==> row_for_command(row, sender, *data, timestamp),
{
    let receiver_id = match parse_id(data.receiver_id.as_str()) {
        Some(id) => id,
        None => {
            return Err(SendError::InvalidReceiverId);
        },
    };
    let message_id = match parse_id(data.message_id.as_str()) {
        Some(id) => id,
        None => {
            return Err(SendError::InvalidMessageId);
        },
    };
    let encrypted_content = match decode_base64(data.encrypted_content.as_str()) {
        Some(b) => b,
        None => {
            return Err(SendError::InvalidContent);
        },
    };
    let iv = match decode_base64(data.iv.as_str()) {
        Some(b) => b,
        None => {
            return Err(SendError::InvalidIv);
        },
    };
    Ok(MessageRow {
        id: message_id,
        timestamp,
        sender_id: sender,
        receiver_id,
        status: MessageStatus::Sent,
        kind: data.kind.clone(),
        encrypted_content,
        iv,
    })
}

/// Relies on chrono's `Utc::now` viewed in the Europe/Brussels zone:
/// milliseconds since the Unix epoch. Nothing is known of the value.
#[verifier::external_body]
fn now_millis() -> (r: i64) {
    chrono::Utc::now().with_timezone(&chrono_tz::Europe::Brussels).timestamp_millis()
}

/// The row for a `send_message` command from `sender`, stamped with the
/// current time, or the first check its payload fails.
pub fn prepare_send(sender: u128, data: &SendMessageData) -> (r: Result<MessageRow, SendError>)
    ensures
        send_rejection(*data) is None <==> r is Ok,
        r matches Err(e) ==> send_rejection(*data) == Some(e),
        r matches Ok(row) ==> row_for_command(row, sender, *data, row.timestamp),
{
    new_message_row(sender, data, now_millis())
}

/// Whether `e` announces the new message `row` to its receiver.
pub open spec fn is_new_message_event(e: WSEvent, row: MessageRow) -> bool {
    match e {
        WSEvent::NewMessage(n) => {
            &&& n.id@ == uuid_text(row.id)
            &&& n.timestamp@ == crate::codec::decimal_text(row.timestamp as int)
            &&& n.sender_id@ == uuid_text(row.sender_id)
            &&& n.receiver_id@ == uuid_text(row.receiver_id)
            &&& n.status@ == row.status.text()
            &&& n.kind@ == row.kind@
            &&& n.encrypted_content@ == base64_of(row.encrypted_content@)
            &&& n.iv@ == base64_of(row.iv@)
        },
        _ => false,
    }
}

/// Whether `e` reports that message `id` now has `status`, changed by `by`.
pub open spec fn is_status_event(e: WSEvent, id: u128, status: MessageStatus, by: Seq<char>) -> bool {
    match e {
        WSEvent::StatusUpdate(u) => {
            &&& u.message_id@ == uuid_text(id)
            &&& u.status@ == status.text()
            &&& u.updated_by@ == by
        },
        _ => false,
    }
}

/// The actor named in the acknowledgement of a send.
pub open spec fn server_actor() -> Seq<char> {
    "server"@
}

/// The pushes owed after `row` was stored: first the message to its
/// receiver, then the `SENT` acknowledgement to its sender.
pub open spec fn send_deliveries_for(ds: Seq<Delivery>, row: MessageRow) -> bool {
    &&& ds.len() == 2
    &&& ds[0].user == row.receiver_id
    &&& is_new_message_event(ds[0].event, row)
    &&& ds[1].user == row.sender_id
    &&& is_status_event(ds[1].event, row.id, MessageStatus::Sent, server_actor())
}

/// The pushes owed after message `id` was set to `status` by `actor`: the
/// same update to the sender, then to the receiver.
pub open spec fn status_deliveries_for(
    ds: Seq<Delivery>,
    id: u128,
    status: MessageStatus,
    actor: u128,
    sender: u128,
    receiver: u128,
) -> bool {
    &&& ds.len() == 2
    &&& ds[0].user == sender
    &&& ds[1].user == receiver
    &&& is_status_event(ds[0].event, id, status, uuid_text(actor))
    &&& ds[1].event == ds[0].event
}

/// The registry after each delivery has been pushed, in order.
pub open spec fn deliver_all(
    m: Map<u128, crate::registry::Channel>,
    ds: Seq<Delivery>,
) -> Map<u128, crate::registry::Channel>
    decreases ds.len(),
{
    if ds.len() == 0 {
        m
    } else {
        push_to_user(deliver_all(m, ds.drop_last()), ds.last().user, ds.last().event)
    }
}

/// The notification that announces `row` to its receiver.
pub fn notification_of(row: &MessageRow) -> (r: MessageNotification)
    ensures
        is_new_message_event(WSEvent::NewMessage(r), *row),
{
    let resp = crate::store::response_of(row);
    MessageNotification {
        id: resp.id,
        timestamp: resp.timestamp,
        sender_id: resp.sender_id,
        receiver_id: resp.receiver_id,
        status: resp.status,
        kind: resp.kind,
        encrypted_content: resp.encrypted_content,
        iv: resp.iv,
    }
}

/// The pushes owed once `row` is stored.
pub fn send_deliveries(row: &MessageRow) -> (r: Vec<Delivery>)
    ensures
        send_deliveries_for(r@, *row),
{
    proof {
        reveal_strlit("server");
    }
    let ack = StatusUpdate {
        message_id: id_text(row.id),
        status: MessageStatus::Sent.as_string(),
        updated_by: "server".to_owned(),
    };
    vec![
        Delivery { user: row.receiver_id, event: WSEvent::NewMessage(notification_of(row)) },
        Delivery { user: row.sender_id, event: WSEvent::StatusUpdate(ack) },
    ]
}

/// Which check an `update_status` payload fails first, if any.
pub open spec fn status_command_rejection(data: UpdateStatusData) -> Option<StatusError> {
    if uuid_parsed(data.message_id@) is None {
        Some(StatusError::InvalidMessageId)
    } else if requested_status(data.status@) is None {
        Some(StatusError::InvalidStatus)
    } else {
        None
    }
}

/// The message and the status that an `update_status` payload asks for.
pub fn parse_status_command(data: &UpdateStatusData) -> (r: Result<(u128, MessageStatus), StatusError>)
    ensures
        status_command_rejection(*data) is None <==> r is Ok,
        r matches Err(e) ==> status_command_rejection(*data) == Some(e),
        r matches Ok(p) ==> Some(p.0) == uuid_parsed(data.message_id@) && Some(p.1) == requested_status(data.status@),
{
    let id = match parse_id(data.message_id.as_str()) {
        Some(id) => id,
        None => {
            return Err(StatusError::InvalidMessageId);
        },
    };
    match parse_status(data.status.as_str()) {
        Some(s) => Ok((id, s)),
        None => Err(StatusError::InvalidStatus),
    }
}

/// Only the receiver may set a message to `READ`; anyone may set any other status.
pub fn authorize_status(actor: u128, status: MessageStatus, receiver: u128) -> (r: Result<(), StatusError>)
    ensures
        r is Err <==> (status == MessageStatus::Read && actor != receiver),
        r matches Err(e) ==> e == StatusError::NotReceiver,
{
    if status == MessageStatus::Read && actor != receiver {
        Err(StatusError::NotReceiver)
    } else {
        Ok(())
    }
}

/// The pushes owed after message `id` was set to `status` by `actor`.
pub fn status_deliveries(id: u128, status: MessageStatus, actor: u128, sender: u128, receiver: u128) -> (r: Vec<Delivery>)
    ensures
        status_deliveries_for(r@, id, status, actor, sender, receiver),
{
    let update = StatusUpdate { message_id: id_text(id), status: status.as_string(), updated_by: id_text(actor) };
    let copy = update.duplicate();
    vec![
        Delivery { user: sender, event: WSEvent::StatusUpdate(update) },
        Delivery { user: receiver, event: WSEvent::StatusUpdate(copy) },
    ]
}

/// Whether setting `status` schedules the message's deletion.
pub fn schedules_deletion(status: MessageStatus) -> (r: bool)
    ensures
        r == (status == MessageStatus::Read),
{
    status == MessageStatus::Read
}

} // verus!
