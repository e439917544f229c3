//! The durable message store, kept in memory: rows in insertion order, one
//! per message identifier, with the four operations the delivery engine uses.
use vstd::prelude::*;

use crate::codec::{base64_of, decimal_text, encode_base64, i64_text, id_text, uuid_text};
use crate::status::MessageStatus;

verus! {

/// One stored message.
#[derive(Debug)]
pub struct MessageRow {
    pub id: u128,
    /// Milliseconds since the Unix epoch, fixed at creation.
    pub timestamp: i64,
    pub sender_id: u128,
    pub receiver_id: u128,
    pub status: MessageStatus,
    /// Client-defined content type.
    pub kind: String,
    pub encrypted_content: Vec<u8>,
    pub iv: Vec<u8>,
}

/// A stored message as returned to clients: identifiers as text, binary
/// fields as base64.
#[derive(Debug)]
pub struct MessageResponse {
    pub id: String,
    pub timestamp: String,
    pub sender_id: String,
    pub receiver_id: String,
    pub status: String,
    /// Client-defined content type (`type` on the wire).
    pub kind: String,
    pub encrypted_content: String,
    pub iv: String,
}

/// Whether `resp` is the client form of `row`.
pub open spec fn response_matches(resp: MessageResponse, row: MessageRow) -> bool {
    &&& resp.id@ == uuid_text(row.id)
    &&& resp.timestamp@ == decimal_text(row.timestamp as int)
    &&& resp.sender_id@ == uuid_text(row.sender_id)
    &&& resp.receiver_id@ == uuid_text(row.receiver_id)
    &&& resp.status@ == row.status.text()
    &&& resp.kind@ == row.kind@
    &&& resp.encrypted_content@ == base64_of(row.encrypted_content@)
    &&& resp.iv@ == base64_of(row.iv@)
}

/// The client form of a stored message.
pub fn response_of(row: &MessageRow) -> (r: MessageResponse)
    ensures
        response_matches(r, *row),
{
    MessageResponse {
        id: id_text(row.id),
        timestamp: i64_text(row.timestamp),
        sender_id: id_text(row.sender_id),
        receiver_id: id_text(row.receiver_id),
        status: row.status.as_string(),
        kind: row.kind.clone(),
        encrypted_content: encode_base64(row.encrypted_content.as_slice()),
        iv: encode_base64(row.iv.as_slice()),
    }
}

/// Whether some row of `s` has identifier `id`.
pub open spec fn has_id(s: Seq<MessageRow>, id: u128) -> bool {
    exists|i: int| 0 <= i < s.len() && (#[trigger] s[i]).id == id
}

/// The position of the row with identifier `id`.
pub open spec fn index_of(s: Seq<MessageRow>, id: u128) -> int {
    choose|i: int| 0 <= i < s.len() && (#[trigger] s[i]).id == id
}

/// No two rows share an identifier.
pub open spec fn ids_unique(s: Seq<MessageRow>) -> bool {
    forall|i: int, j: int|
        0 <= i < s.len() && 0 <= j < s.len() && i != j ==> (#[trigger] s[i]).id != (#[trigger] s[j]).id
}

/// The rows after setting the status of message `id`.
pub open spec fn with_status(s: Seq<MessageRow>, id: u128, status: MessageStatus) -> Seq<MessageRow> {
    if has_id(s, id) {
        s.update(index_of(s, id), MessageRow { status, ..s[index_of(s, id)] })
    } else {
        s
    }
}

/// The rows after deleting message `id`.
pub open spec fn without_id(s: Seq<MessageRow>, id: u128) -> Seq<MessageRow> {
    if has_id(s, id) {
        s.remove(index_of(s, id))
    } else {
        s
    }
}

/// Whether a row is a message between `a` and `b`, in either direction.
pub open spec fn is_between(r: MessageRow, a: u128, b: u128) -> bool {
    (r.sender_id == a && r.receiver_id == b) || (r.sender_id == b && r.receiver_id == a)
}

/// The rows of messages between `a` and `b`, in store order.
pub open spec fn rows_between(s: Seq<MessageRow>, a: u128, b: u128) -> Seq<MessageRow>
    decreases s.len(),
{
    if s.len() == 0 {
        s
    } else if is_between(s.last(), a, b) {
        rows_between(s.drop_last(), a, b).push(s.last())
    } else {
        rows_between(s.drop_last(), a, b)
    }
}

pub struct MessageStore {
    rows: Vec<MessageRow>,
}

impl View for MessageStore {
    type V = Seq<MessageRow>;

    closed spec fn view(&self) -> Seq<MessageRow> {
        self.rows@
    }
}

impl MessageStore {
    pub closed spec fn wf(&self) -> bool {
        ids_unique(self.rows@)
    }

    pub fn new() -> (r: Self)
        ensures
            r.wf(),
            r@ == Seq::<MessageRow>::empty(),
    {
        MessageStore { rows: Vec::new() }
    }

    fn position(&self, id: u128) -> (r: Option<usize>)
        requires
            self.wf(),
        ensures
            r matches Some(i) ==> i < self@.len() && i as int == index_of(self@, id) && has_id(self@, id),
            r is None <==> !has_id(self@, id),
    {
        let mut i: usize = 0;
        while i < self.rows.len()
            invariant
                self.wf(),
                0 <= i <= self.rows@.len(),
                forall|j: int| 0 <= j < i ==> (#[trigger] self.rows@[j]).id != id,
            decreases self.rows@.len() - i,
        {
            if self.rows[i].id == id {
                assert(has_id(self@, id));
                let ghost k = index_of(self@, id);
                assert(self.rows@[k].id == id);
                assert(k == i as int);
                return Some(i);
            }
            i = i + 1;
        }
        None
    }

    /// Stores a new row; refused when a row with the same identifier exists.
    pub fn insert(&mut self, row: MessageRow) -> (r: bool)
        requires
            old(self).wf(),
        ensures
            final(self).wf(),
            r == !has_id(old(self)@, row.id),
            r ==> final(self)@ == old(self)@.push(row),
            !r ==> final(self)@ == old(self)@,
    {
        if self.position(row.id).is_some() {
            false
        } else {
            self.rows.push(row);
            true
        }
    }

    /// The receiver and the sender of message `id`.
    pub fn parties(&self, id: u128) -> (r: Option<(u128, u128)>)
        requires
            self.wf(),
        ensures
            r is None <==> !has_id(self@, id),
            r matches Some(p) ==> p == (self@[index_of(self@, id)].receiver_id, self@[index_of(self@, id)].sender_id),
    {
        match self.position(id) {
            None => None,
            Some(i) => Some((self.rows[i].receiver_id, self.rows[i].sender_id)),
        }
    }

    /// Sets the status of message `id`; says whether such a row exists.
    pub fn set_status(&mut self, id: u128, status: MessageStatus) -> (r: bool)
        requires
            old(self).wf(),
        ensures
            final(self).wf(),
            r == has_id(old(self)@, id),
            final(self)@ == with_status(old(self)@, id, status),
    {
        match self.position(id) {
            None => false,
            Some(i) => {
                self.rows[i].status = status;
                assert(self@ =~= with_status(old(self)@, id, status));
                assert forall|a: int, b: int|
                    0 <= a < self@.len() && 0 <= b < self@.len() && a != b
                        implies (#[trigger] self@[a]).id != (#[trigger] self@[b]).id by {
                    assert(self@[a].id == old(self)@[a].id);
                    assert(self@[b].id == old(self)@[b].id);
                }
                true
            },
        }
    }

    /// Deletes message `id`; says whether such a row existed.
    pub fn delete(&mut self, id: u128) -> (r: bool)
        requires
            old(self).wf(),
        ensures
            final(self).wf(),
            r == has_id(old(self)@, id),
            final(self)@ == without_id(old(self)@, id),
            !has_id(final(self)@, id),
    {
        match self.position(id) {
            None => false,
            Some(i) => {
                let _ = self.rows.remove(i);
                let ghost s = old(self)@;
                assert forall|a: int, b: int|
                    0 <= a < self@.len() && 0 <= b < self@.len() && a != b
                        implies (#[trigger] self@[a]).id != (#[trigger] self@[b]).id by {
                    let a2 = if a < i { a } else { a + 1 };
                    let b2 = if b < i { b } else { b + 1 };
                    assert(self@[a] == s[a2]);
                    assert(self@[b] == s[b2]);
                }
                assert(!has_id(self@, id)) by {
                    assert forall|a: int| 0 <= a < self@.len() implies (#[trigger] self@[a]).id != id by {
                        let a2 = if a < i { a } else { a + 1 };
                        assert(self@[a] == s[a2]);
                        assert(a2 != i as int);
                    }
                }
                true
            },
        }
    }

    /// The messages between `a` and `b`, in either direction, in store
    /// order, in client form.
    pub fn fetch_between(&self, a: u128, b: u128) -> (r: Vec<MessageResponse>)
        requires
            self.wf(),
        ensures
            r@.len() == rows_between(self@, a, b).len(),
            forall|k: int| 0 <= k < r@.len() ==> response_matches(#[trigger] r@[k], rows_between(self@, a, b)[k]),
    {
        let mut out: Vec<MessageResponse> = Vec::new();
        let mut i: usize = 0;
        while i < self.rows.len()
            invariant
                0 <= i <= self.rows@.len(),
                out@.len() == rows_between(self@.subrange(0, i as int), a, b).len(),
                forall|k: int| 0 <= k < out@.len() ==>
                    response_matches(#[trigger] out@[k], rows_between(self@.subrange(0, i as int), a, b)[k]),
            decreases self.rows@.len() - i,
        {
            let ghost prefix = self@.subrange(0, i as int);
            let ghost next = self@.subrange(0, i as int + 1);
            assert(next.drop_last() =~= prefix);
            assert(next.last() == self@[i as int]);
            let row = &self.rows[i];
            if (row.sender_id == a && row.receiver_id == b) || (row.sender_id == b && row.receiver_id == a) {
                out.push(response_of(row));
            }
            i = i + 1;
        }
        assert(self@.subrange(0, self@.len() as int) =~= self@);
        out
    }
}

} // verus!
