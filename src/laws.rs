//! Properties that hold across the operations of the delivery engine.
use vstd::prelude::*;

use crate::codec::{uuid_parsed, uuid_text};
use crate::engine::{
    deliver_all, is_new_message_event, is_status_event, row_for_command, send_deliveries_for,
    server_actor, status_deliveries_for, Delivery, StatusError, DELETION_GRACE_MILLIS,
};
use crate::events::{SendMessageData, UpdateStatusData, WSEvent};
use crate::registry::{fresh_channel, push_to_user, pushed, Channel};
use crate::server::{
    deletions_outcome, disconnect_outcome, send_outcome, status_update_outcome, uuid_parsed_id, ChatServer,
};
use crate::status::{requested_status, MessageStatus};
use crate::store::{has_id, index_of, is_between, rows_between, MessageRow};

verus! {

/// Pushing two deliveries pushes the first, then the second.
proof fn lemma_deliver_two(m: Map<u128, Channel>, ds: Seq<Delivery>)
    requires
        ds.len() == 2,
    ensures
        deliver_all(m, ds) == push_to_user(push_to_user(m, ds[0].user, ds[0].event), ds[1].user, ds[1].event),
{
    let one = ds.drop_last();
    assert(one.drop_last() =~= Seq::<Delivery>::empty());
    assert(one.last() == ds[0]);
    assert(deliver_all(m, one.drop_last()) == m);
    assert(deliver_all(m, one) == push_to_user(m, ds[0].user, ds[0].event));
}

/// After a successful send the message is stored with status `SENT`; the
/// receiver's session, if registered, is pushed the message first, and only
/// then the sender's session is pushed the `SENT` acknowledgement. No other
/// session is pushed anything.
pub proof fn lemma_send_stores_then_notifies(
    pre: ChatServer,
    post: ChatServer,
    sender: u128,
    data: SendMessageData,
    now: i64,
)
    requires
        send_outcome(pre, post, sender, data, now, Ok(())),
    ensures
        exists|row: MessageRow, e_new: WSEvent, e_ack: WSEvent| {
            &&& row_for_command(row, sender, data, now)
            &&& post.store@ == pre.store@.push(row)
            &&& row.status == MessageStatus::Sent
            &&& is_new_message_event(e_new, row)
            &&& is_status_event(e_ack, row.id, MessageStatus::Sent, server_actor())
            &&& post.registry@ == push_to_user(push_to_user(pre.registry@, row.receiver_id, e_new), sender, e_ack)
        },
{
    let unchanged = post.store@ == pre.store@ && post.registry@ == pre.registry@;
    assert(!(crate::engine::send_rejection(data) is Some));
    assert(!has_id(pre.store@, uuid_parsed_id(data.message_id@)));
    let (row, ds) = choose|row: MessageRow, ds: Seq<Delivery>| {
        &&& row_for_command(row, sender, data, now)
        &&& post.store@ == pre.store@.push(row)
        &&& send_deliveries_for(ds, row)
        &&& post.registry@ == deliver_all(pre.registry@, ds)
    };
    lemma_deliver_two(pre.registry@, ds);
}

/// Only the receiver may mark a message read: the request of anyone else is
/// refused as unauthorized and changes nothing.
pub proof fn lemma_only_receiver_marks_read(
    pre: ChatServer,
    post: ChatServer,
    actor: u128,
    data: UpdateStatusData,
    now: i64,
    r: Result<(), StatusError>,
)
    requires
        status_update_outcome(pre, post, actor, data, now, r),
        requested_status(data.status@) == Some(MessageStatus::Read),
        uuid_parsed(data.message_id@) is Some,
        has_id(pre.store@, uuid_parsed_id(data.message_id@)),
        pre.store@[index_of(pre.store@, uuid_parsed_id(data.message_id@))].receiver_id != actor,
    ensures
        r == Err::<(), StatusError>(StatusError::NotReceiver),
        post.store@ == pre.store@,
        post.registry@ == pre.registry@,
        post.pending@ == pre.pending@,
{
}

/// After a successful status update the sender's and the receiver's
/// sessions, where registered, are each pushed exactly one update carrying
/// the new status and the acting user; no other session is pushed anything.
pub proof fn lemma_status_update_reaches_both(
    pre: ChatServer,
    post: ChatServer,
    actor: u128,
    data: UpdateStatusData,
    now: i64,
)
    requires
        status_update_outcome(pre, post, actor, data, now, Ok(())),
        ({
            let row = pre.store@[index_of(pre.store@, uuid_parsed_id(data.message_id@))];
            row.sender_id != row.receiver_id
        }),
    ensures
        ({
            let id = uuid_parsed_id(data.message_id@);
            let status = requested_status(data.status@)->0;
            let row = pre.store@[index_of(pre.store@, id)];
            exists|e: WSEvent| {
                &&& is_status_event(e, id, status, uuid_text(actor))
                &&& forall|u: u128| #[trigger] post.registry@.contains_key(u) <==> pre.registry@.contains_key(u)
                &&& forall|u: u128| #[trigger] pre.registry@.contains_key(u) ==> post.registry@[u] == (
                    if u == row.sender_id || u == row.receiver_id { pushed(pre.registry@[u], e) } else { pre.registry@[u] })
            }
        }),
{
    let id = uuid_parsed_id(data.message_id@);
    let status = requested_status(data.status@)->0;
    let row = pre.store@[index_of(pre.store@, id)];
    assert(crate::engine::status_command_rejection(data) is None);
    let ds = choose|ds: Seq<Delivery>| {
        &&& status_deliveries_for(ds, id, status, actor, row.sender_id, row.receiver_id)
        &&& post.registry@ == deliver_all(pre.registry@, ds)
    };
    lemma_deliver_two(pre.registry@, ds);
    let e = ds[0].event;
    assert(is_status_event(e, id, status, uuid_text(actor)));
}

/// A message marked read is gone from the store once the deletions due
/// `DELETION_GRACE_MILLIS` or more after the request have run, even when the
/// requesting session disconnected straight after the request.
pub proof fn lemma_read_message_deleted(
    s0: ChatServer,
    s1: ChatServer,
    s2: ChatServer,
    s3: ChatServer,
    actor: u128,
    data: UpdateStatusData,
    now: i64,
    later: i64,
)
    requires
        status_update_outcome(s0, s1, actor, data, now, Ok(())),
        requested_status(data.status@) == Some(MessageStatus::Read),
        disconnect_outcome(s1, s2, actor),
        deletions_outcome(s2, s3, later),
        later as int >= now as int + DELETION_GRACE_MILLIS as int,
    ensures
        !has_id(s3.store@, uuid_parsed_id(data.message_id@)),
{
    let k = s2.pending@.len() - 1;
    assert(s2.pending@[k].id == uuid_parsed_id(data.message_id@));
    assert(s2.pending@[k].due <= later as int);
}

/// Registering a second session for a user supersedes the first: an event
/// pushed afterwards reaches only the second session's queue, and the first
/// session can no longer take anything from the registry.
pub proof fn lemma_reregistration_supersedes(
    m: Map<u128, Channel>,
    user: u128,
    first: u64,
    second: u64,
    e: WSEvent,
)
    requires
        first != second,
    ensures
        ({
            let after = push_to_user(m.insert(user, fresh_channel(first)).insert(user, fresh_channel(second)), user, e);
            &&& after[user].session == second
            &&& after[user].session != first
            &&& after[user].events == seq![e]
        }),
{
    assert(Seq::<WSEvent>::empty().push(e) =~= seq![e]);
}

/// What a send stores is what a fetch of the conversation returns: the
/// payload and the initialization vector come back as the same base64 text.
pub proof fn lemma_payload_round_trip(
    pre: ChatServer,
    post: ChatServer,
    sender: u128,
    data: SendMessageData,
    now: i64,
)
    requires
        send_outcome(pre, post, sender, data, now, Ok(())),
    ensures
        ({
            let receiver = uuid_parsed(data.receiver_id@)->0;
            let fetched = rows_between(post.store@, sender, receiver);
            &&& fetched.len() > 0
            &&& fetched.last().id == uuid_parsed_id(data.message_id@)
            &&& crate::codec::base64_of(fetched.last().encrypted_content@) == data.encrypted_content@
            &&& crate::codec::base64_of(fetched.last().iv@) == data.iv@
        }),
{
    assert(!(crate::engine::send_rejection(data) is Some));
    assert(!has_id(pre.store@, uuid_parsed_id(data.message_id@)));
    let (row, ds) = choose|row: MessageRow, ds: Seq<Delivery>| {
        &&& row_for_command(row, sender, data, now)
        &&& post.store@ == pre.store@.push(row)
        &&& send_deliveries_for(ds, row)
        &&& post.registry@ == deliver_all(pre.registry@, ds)
    };
    let receiver = uuid_parsed(data.receiver_id@)->0;
    assert(is_between(row, sender, receiver));
    assert(post.store@.drop_last() =~= pre.store@);
}

} // verus!
