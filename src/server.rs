//! The delivery engine wired to an in-memory store, the presence registry
//! and the queue of deletions that marking a message read schedules.
use vstd::prelude::*;

use crate::codec::{id_text, uuid_text};
use crate::engine::{
    authorize_status, deliver_all, new_message_row, parse_status_command, row_for_command,
    schedules_deletion, send_deliveries, send_deliveries_for, send_rejection, status_command_rejection,
    status_deliveries, status_deliveries_for, Delivery, SendError, StatusError, DELETION_GRACE_MILLIS,
};
use crate::events::{SendMessageData, UpdateStatusData, WSEvent};
use crate::registry::{fresh_channel, push_to_all, PresenceRegistry};
use crate::status::{requested_status, MessageStatus};
use crate::store::{has_id, index_of, with_status, without_id, MessageStore};

verus! {

/// A message to delete once the clock reaches `due` (milliseconds).
#[derive(Clone, Copy, Debug, PartialEq, Eq, Structural)]
pub struct PendingDeletion {
    pub id: u128,
    pub due: i128,
}

/// Whether `e` announces that `user` came online.
pub open spec fn is_online_event(e: WSEvent, user: u128) -> bool {
    e matches WSEvent::UserOnline(u) && u@ == uuid_text(user)
}

/// Whether `e` announces that `user` went offline.
pub open spec fn is_offline_event(e: WSEvent, user: u128) -> bool {
    e matches WSEvent::UserOffline(u) && u@ == uuid_text(user)
}

/// The rows left after running the deletions of `ps` that are due at `now`, in order.
pub open spec fn after_deletions(s: Seq<crate::store::MessageRow>, ps: Seq<PendingDeletion>, now: i64) -> Seq<crate::store::MessageRow>
    decreases ps.len(),
{
    if ps.len() == 0 {
        s
    } else {
        let t = after_deletions(s, ps.drop_last(), now);
        if ps.last().due <= now as int {
            without_id(t, ps.last().id)
        } else {
            t
        }
    }
}

/// The deletions of `ps` that are not yet due at `now`, in order.
pub open spec fn not_yet_due(ps: Seq<PendingDeletion>, now: i64) -> Seq<PendingDeletion>
    decreases ps.len(),
{
    if ps.len() == 0 {
        ps
    } else if ps.last().due <= now as int {
        not_yet_due(ps.drop_last(), now)
    } else {
        not_yet_due(ps.drop_last(), now).push(ps.last())
    }
}

/// Deleting one message leaves every other message absent that was absent.
pub proof fn lemma_delete_keeps_absent(s: Seq<crate::store::MessageRow>, gone: u128, id: u128)
    requires
        !has_id(s, gone),
    ensures
        !has_id(without_id(s, id), gone),
{
    if has_id(s, id) {
        let k = index_of(s, id);
        let t = s.remove(k);
        assert forall|a: int| 0 <= a < t.len() implies (#[trigger] t[a]).id != gone by {
            let a2 = if a < k { a } else { a + 1 };
            assert(t[a] == s[a2]);
        }
    }
}

pub struct ChatServer {
    pub store: MessageStore,
    pub registry: PresenceRegistry,
    pub pending: Vec<PendingDeletion>,
}

impl ChatServer {
    pub open spec fn wf(&self) -> bool {
        self.store.wf() && self.registry.wf()
    }

    pub fn new() -> (r: Self)
        ensures
            r.wf(),
            r.store@ == Seq::<crate::store::MessageRow>::empty(),
            r.registry@ == Map::<u128, crate::registry::Channel>::empty(),
            r.pending@ == Seq::<PendingDeletion>::empty(),
    {
        ChatServer { store: MessageStore::new(), registry: PresenceRegistry::new(), pending: Vec::new() }
    }

    /// Pushes each delivery, in order, to its user's session if registered.
    pub fn deliver(&mut self, ds: Vec<Delivery>)
        requires
            old(self).wf(),
        ensures
            final(self).wf(),
            final(self).registry@ == deliver_all(old(self).registry@, ds@),
            final(self).store@ == old(self).store@,
            final(self).pending@ == old(self).pending@,
    {
        let ghost all = ds@;
        let mut rest = ds;
        let mut i: usize = 0;
        let n = rest.len();
        while i < n
            invariant
                self.wf(),
                0 <= i <= n,
                n == all.len(),
                rest@ == all.subrange(i as int, n as int),
                self.registry@ == deliver_all(old(self).registry@, all.subrange(0, i as int)),
                self.store@ == old(self).store@,
                self.pending@ == old(self).pending@,
            decreases n - i,
        {
            let d = rest.remove(0);
            assert(d == all[i as int]);
            assert(all.subrange(0, i as int + 1).drop_last() =~= all.subrange(0, i as int));
            let _ = self.registry.push_to(d.user, d.event);
            i = i + 1;
            assert(rest@ =~= all.subrange(i as int, n as int));
        }
        assert(all.subrange(0, n as int) =~= all);
    }

    /// Registers `session` for `user`, then tells every registered session,
    /// the new one included, that `user` is online.
    pub fn connect(&mut self, user: u128, session: u64)
        requires
            old(self).wf(),
        ensures
            final(self).wf(),
            exists|e: WSEvent| is_online_event(e, user)
                && final(self).registry@ == push_to_all(old(self).registry@.insert(user, fresh_channel(session)), e),
            final(self).store@ == old(self).store@,
            final(self).pending@ == old(self).pending@,
    {
        self.registry.register(user, session);
        let e = WSEvent::UserOnline(id_text(user));
        self.registry.broadcast(&e);
        assert(is_online_event(e, user));
    }

    /// Removes `user`'s registration, then tells the remaining sessions that
    /// `user` is offline. Stored messages and scheduled deletions are untouched.
    pub fn disconnect(&mut self, user: u128)
        requires
            old(self).wf(),
        ensures
            final(self).wf(),
            disconnect_outcome(*old(self), *final(self), user),
    {
        let _ = self.registry.unregister(user);
        let e = WSEvent::UserOffline(id_text(user));
        self.registry.broadcast(&e);
        assert(is_offline_event(e, user));
    }

    /// Handles a `send_message` command from `sender` at time `now`: the row
    /// is stored with status `SENT`, then the receiver is sent the message
    /// and the sender the acknowledgement. A refused command changes nothing.
    pub fn send(&mut self, sender: u128, data: &SendMessageData, now: i64) -> (r: Result<(), SendError>)
        requires
            old(self).wf(),
        ensures
            final(self).wf(),
            send_outcome(*old(self), *final(self), sender, *data, now, r),
    {
        let row = match new_message_row(sender, data, now) {
            Ok(row) => row,
            Err(e) => {
                return Err(e);
            },
        };
        let ghost stored = row;
        let ds = send_deliveries(&row);
        if !self.store.insert(row) {
            return Err(SendError::StoreRejected);
        }
        let ghost dv = ds@;
        self.deliver(ds);
        assert(row_for_command(stored, sender, *data, now));
        Ok(())
    }

    /// Handles an `update_status` command from `actor` at time `now`. On
    /// success the status is stored, the sender and the receiver are each
    /// pushed the update, and a `READ` schedules the message's deletion
    /// `DELETION_GRACE_MILLIS` later. A refused command changes nothing.
    pub fn update_status(&mut self, actor: u128, data: &UpdateStatusData, now: i64) -> (r: Result<(), StatusError>)
        requires
            old(self).wf(),
        ensures
            final(self).wf(),
            status_update_outcome(*old(self), *final(self), actor, *data, now, r),
    {
        let (id, status) = match parse_status_command(data) {
            Ok(p) => p,
            Err(e) => {
                return Err(e);
            },
        };
        let (receiver, sender) = match self.store.parties(id) {
            Some(p) => p,
            None => {
                return Err(StatusError::NotFound);
            },
        };
        match authorize_status(actor, status, receiver) {
            Ok(()) => {},
            Err(e) => {
                return Err(e);
            },
        }
        let _ = self.store.set_status(id, status);
        let ds = status_deliveries(id, status, actor, sender, receiver);
        let ghost dv = ds@;
        self.deliver(ds);
        if schedules_deletion(status) {
            self.pending.push(PendingDeletion { id, due: now as i128 + DELETION_GRACE_MILLIS as i128 });
        }
        Ok(())
    }

    /// Runs every scheduled deletion that is due at `now` and keeps the others.
    pub fn run_due_deletions(&mut self, now: i64)
        requires
            old(self).wf(),
        ensures
            final(self).wf(),
            deletions_outcome(*old(self), *final(self), now),
    {
        let ghost ps = self.pending@;
        let mut kept: Vec<PendingDeletion> = Vec::new();
        let mut i: usize = 0;
        while i < self.pending.len()
            invariant
                self.wf(),
                0 <= i <= ps.len(),
                self.pending@ == ps,
                ps == old(self).pending@,
                self.registry@ == old(self).registry@,
                self.store@ == after_deletions(old(self).store@, ps.subrange(0, i as int), now),
                kept@ == not_yet_due(ps.subrange(0, i as int), now),
                forall|k: int| 0 <= k < i && (#[trigger] ps[k]).due <= now as int ==> !has_id(self.store@, ps[k].id),
            decreases ps.len() - i,
        {
            let p = self.pending[i];
            let ghost before = self.store@;
            assert(ps.subrange(0, i as int + 1).drop_last() =~= ps.subrange(0, i as int));
            if p.due <= now as i128 {
                let _ = self.store.delete(p.id);
                proof {
                    assert forall|k: int| 0 <= k < i + 1 && (#[trigger] ps[k]).due <= now as int
                        implies !has_id(self.store@, ps[k].id) by {
                        if k < i {
                            lemma_delete_keeps_absent(before, ps[k].id, p.id);
                        }
                    }
                }
            } else {
                kept.push(p);
            }
            i = i + 1;
        }
        assert(ps.subrange(0, ps.len() as int) =~= ps);
        self.pending = kept;
    }
}

/// The identifier a text parses to; meaningful only where it parses.
pub open spec fn uuid_parsed_id(s: Seq<char>) -> u128 {
    crate::codec::uuid_parsed(s)->0
}

/// What a `send_message` command from `sender` at `now` does to the server.
pub open spec fn send_outcome(
    pre: ChatServer,
    post: ChatServer,
    sender: u128,
    data: SendMessageData,
    now: i64,
    r: Result<(), SendError>,
) -> bool {
    let unchanged = post.store@ == pre.store@ && post.registry@ == pre.registry@;
    &&& post.pending@ == pre.pending@
    &&& if send_rejection(data) is Some {
        r == Err::<(), SendError>(send_rejection(data)->0) && unchanged
    } else if has_id(pre.store@, uuid_parsed_id(data.message_id@)) {
        r == Err::<(), SendError>(SendError::StoreRejected) && unchanged
    } else {
        &&& r is Ok
        &&& exists|row: crate::store::MessageRow, ds: Seq<Delivery>| {
            &&& row_for_command(row, sender, data, now)
            &&& post.store@ == pre.store@.push(row)
            &&& send_deliveries_for(ds, row)
            &&& post.registry@ == deliver_all(pre.registry@, ds)
        }
    }
}

/// What closing `user`'s session does to the server: the registration goes,
/// the remaining sessions are told, the store and the scheduled deletions stay.
pub open spec fn disconnect_outcome(pre: ChatServer, post: ChatServer, user: u128) -> bool {
    &&& exists|e: WSEvent| is_offline_event(e, user)
        && post.registry@ == push_to_all(pre.registry@.remove(user), e)
    &&& post.store@ == pre.store@
    &&& post.pending@ == pre.pending@
}

/// What running the deletions due at `now` does to the server.
pub open spec fn deletions_outcome(pre: ChatServer, post: ChatServer, now: i64) -> bool {
    &&& post.store@ == after_deletions(pre.store@, pre.pending@, now)
    &&& post.pending@ == not_yet_due(pre.pending@, now)
    &&& post.registry@ == pre.registry@
    &&& forall|k: int| 0 <= k < pre.pending@.len() && (#[trigger] pre.pending@[k]).due <= now as int
        ==> !has_id(post.store@, pre.pending@[k].id)
}

/// What an `update_status` command from `actor` at `now` does to the server.
pub open spec fn status_update_outcome(
    pre: ChatServer,
    post: ChatServer,
    actor: u128,
    data: UpdateStatusData,
    now: i64,
    r: Result<(), StatusError>,
) -> bool {
    let id = uuid_parsed_id(data.message_id@);
    let status = requested_status(data.status@)->0;
    let row = pre.store@[index_of(pre.store@, id)];
    let unchanged = post.store@ == pre.store@ && post.registry@ == pre.registry@ && post.pending@ == pre.pending@;
    if status_command_rejection(data) is Some {
        r == Err::<(), StatusError>(status_command_rejection(data)->0) && unchanged
    } else if !has_id(pre.store@, id) {
        r == Err::<(), StatusError>(StatusError::NotFound) && unchanged
    } else if status == MessageStatus::Read && actor != row.receiver_id {
        r == Err::<(), StatusError>(StatusError::NotReceiver) && unchanged
    } else {
        &&& r is Ok
        &&& post.store@ == with_status(pre.store@, id, status)
        &&& exists|ds: Seq<Delivery>| {
            &&& status_deliveries_for(ds, id, status, actor, row.sender_id, row.receiver_id)
            &&& post.registry@ == deliver_all(pre.registry@, ds)
        }
        &&& post.pending@ == if status == MessageStatus::Read {
            pre.pending@.push(PendingDeletion { id, due: (now as int + DELETION_GRACE_MILLIS as int) as i128 })
        } else {
            pre.pending@
        }
    }
}

} // verus!
