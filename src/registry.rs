//! Presence registry: which session of each user is reachable for push, and
//! that session's queue of pending events.
use vstd::prelude::*;

use crate::channel::{bounded_push, BoundedQueue};
use crate::events::WSEvent;

verus! {

/// What the registry holds for one user: the registered session and the
/// events waiting in its queue, oldest first.
pub struct Channel {
    pub session: u64,
    pub events: Seq<WSEvent>,
}

/// The channel of a session that has just registered.
pub open spec fn fresh_channel(session: u64) -> Channel {
    Channel { session, events: Seq::empty() }
}

/// A channel after `e` has been pushed into it.
pub open spec fn pushed(c: Channel, e: WSEvent) -> Channel {
    Channel { session: c.session, events: bounded_push(c.events, e) }
}

/// The registry after `e` has been pushed to `user`, unchanged where that
/// user is not registered.
pub open spec fn push_to_user(m: Map<u128, Channel>, user: u128, e: WSEvent) -> Map<u128, Channel> {
    if m.contains_key(user) {
        m.insert(user, pushed(m[user], e))
    } else {
        m
    }
}

/// The registry after `e` has been pushed to every registered session.
pub open spec fn push_to_all(m: Map<u128, Channel>, e: WSEvent) -> Map<u128, Channel> {
    m.map_values(|c: Channel| pushed(c, e))
}

struct Registration {
    user: u128,
    session: u64,
    queue: BoundedQueue<WSEvent>,
}

impl Registration {
    spec fn channel(self) -> Channel {
        Channel { session: self.session, events: self.queue@ }
    }
}

pub struct PresenceRegistry {
    entries: Vec<Registration>,
    model: Ghost<Map<u128, Channel>>,
}

impl View for PresenceRegistry {
    type V = Map<u128, Channel>;

    closed spec fn view(&self) -> Map<u128, Channel> {
        self.model@
    }
}

impl PresenceRegistry {
    pub closed spec fn wf(&self) -> bool {
        &&& forall|i: int| 0 <= i < self.entries@.len() ==> (#[trigger] self.entries@[i]).queue.wf()
        &&& forall|i: int, j: int|
            0 <= i < self.entries@.len() && 0 <= j < self.entries@.len() && i != j
                ==> (#[trigger] self.entries@[i]).user != (#[trigger] self.entries@[j]).user
        &&& forall|i: int| 0 <= i < self.entries@.len() ==> {
            &&& self.model@.contains_key((#[trigger] self.entries@[i]).user)
            &&& self.model@[self.entries@[i].user] == self.entries@[i].channel()
        }
        &&& forall|u: u128| #[trigger] self.model@.contains_key(u)
            ==> exists|i: int| 0 <= i < self.entries@.len() && (#[trigger] self.entries@[i]).user == u
    }

    pub fn new() -> (r: Self)
        ensures
            r.wf(),
            r@ == Map::<u128, Channel>::empty(),
    {
        PresenceRegistry { entries: Vec::new(), model: Ghost(Map::empty()) }
    }

    fn position(&self, user: u128) -> (r: Option<usize>)
        requires
            self.wf(),
        ensures
            r matches Some(i) ==> i < self.entries@.len() && self.entries@[i as int].user == user,
            r is None <==> !self@.contains_key(user),
    {
        let mut i: usize = 0;
        while i < self.entries.len()
            invariant
                self.wf(),
                0 <= i <= self.entries@.len(),
                forall|j: int| 0 <= j < i ==> (#[trigger] self.entries@[j]).user != user,
            decreases self.entries@.len() - i,
        {
            if self.entries[i].user == user {
                return Some(i);
            }
            i = i + 1;
        }
        None
    }

    /// The session registered for `user`, if any.
    pub fn lookup(&self, user: u128) -> (r: Option<u64>)
        requires
            self.wf(),
        ensures
            r == (if self@.contains_key(user) { Some(self@[user].session) } else { None::<u64> }),
    {
        match self.position(user) {
            Some(i) => Some(self.entries[i].session),
            None => None,
        }
    }

    /// Registers `session` as the reachable session of `user`, replacing any
    /// earlier registration of that user together with its pending events.
    pub fn register(&mut self, user: u128, session: u64)
        requires
            old(self).wf(),
        ensures
            final(self).wf(),
            final(self)@ == old(self)@.insert(user, fresh_channel(session)),
    {
        let entry = Registration { user, session, queue: BoundedQueue::new() };
        let pos = self.position(user);
        match pos {
            Some(i) => {
                self.entries.set(i, entry);
            },
            None => {
                self.entries.push(entry);
            },
        }
        self.model = Ghost(self.model@.insert(user, fresh_channel(session)));
        proof {
            assert(self.entries@[pos.unwrap_or(old(self).entries.len()) as int].channel() == fresh_channel(session));
            assert forall|u: u128| #[trigger] self.model@.contains_key(u)
                implies exists|i: int| 0 <= i < self.entries@.len() && (#[trigger] self.entries@[i]).user == u by {
                if u != user {
                    let k = choose|k: int| 0 <= k < old(self).entries@.len() && (#[trigger] old(self).entries@[k]).user == u;
                    assert(self.entries@[k].user == u);
                } else {
                    let k = pos.unwrap_or(old(self).entries.len()) as int;
                    assert(self.entries@[k].user == u);
                }
            }
        }
    }

    /// Removes the registration of `user`, if there is one; says whether there was.
    pub fn unregister(&mut self, user: u128) -> (r: bool)
        requires
            old(self).wf(),
        ensures
            final(self).wf(),
            final(self)@ == old(self)@.remove(user),
            r == old(self)@.contains_key(user),
    {
        match self.position(user) {
            None => {
                assert(self.model@.remove(user) =~= self.model@);
                false
            },
            Some(i) => {
                let ghost before = self.entries@;
                self.entries.swap_remove(i);
                self.model = Ghost(self.model@.remove(user));
                proof {
                    let last = before.len() - 1;
                    assert forall|j: int| 0 <= j < self.entries@.len() implies
                        (#[trigger] self.entries@[j]).user != user by {
                        if j == i {
                            assert(self.entries@[j] == before[last]);
                            assert(last != i as int);
                        } else {
                            assert(self.entries@[j] == before[j]);
                        }
                    }
                    assert forall|u: u128| #[trigger] self.model@.contains_key(u)
                        implies exists|k: int| 0 <= k < self.entries@.len() && (#[trigger] self.entries@[k]).user == u by {
                        let k = choose|k: int| 0 <= k < before.len() && (#[trigger] before[k]).user == u;
                        if k == last {
                            assert(self.entries@[i as int].user == u);
                        } else {
                            assert(k != i as int);
                            assert(self.entries@[k].user == u);
                        }
                    }
                }
                true
            },
        }
    }

    /// Pushes `e` into the queue of `user`'s registered session; says whether
    /// that user was registered. Never waits: a full queue drops its oldest event.
    pub fn push_to(&mut self, user: u128, e: WSEvent) -> (r: bool)
        requires
            old(self).wf(),
        ensures
            final(self).wf(),
            final(self)@ == push_to_user(old(self)@, user, e),
            r == old(self)@.contains_key(user),
    {
        match self.position(user) {
            None => false,
            Some(i) => {
                let ghost before = self.entries@;
                let _ = self.entries[i].queue.push(e);
                self.model = Ghost(self.model@.insert(user, pushed(self.model@[user], e)));
                proof {
                    assert forall|j: int| 0 <= j < self.entries@.len() && j != i implies
                        self.entries@[j] == before[j] by {}
                    assert forall|u: u128| #[trigger] self.model@.contains_key(u)
                        implies exists|k: int| 0 <= k < self.entries@.len() && (#[trigger] self.entries@[k]).user == u by {
                        let k = choose|k: int| 0 <= k < before.len() && (#[trigger] before[k]).user == u;
                        assert(self.entries@[k].user == u);
                    }
                }
                true
            },
        }
    }

    /// Takes the oldest pending event of `session`, provided it is still the
    /// session registered for `user`. A superseded session gets nothing.
    pub fn take(&mut self, user: u128, session: u64) -> (r: Option<WSEvent>)
        requires
            old(self).wf(),
        ensures
            final(self).wf(),
            ({
                let m = old(self)@;
                if m.contains_key(user) && m[user].session == session && m[user].events.len() > 0 {
                    &&& r == Some(m[user].events[0])
                    &&& final(self)@ == m.insert(user, Channel { session, events: m[user].events.drop_first() })
                } else {
                    &&& r is None
                    &&& final(self)@ == m
                }
            }),
    {
        match self.position(user) {
            None => None,
            Some(i) => {
                if self.entries[i].session != session || self.entries[i].queue.len() == 0 {
                    return None;
                }
                let ghost before = self.entries@;
                let r = self.entries[i].queue.pop();
                self.model = Ghost(self.model@.insert(user, Channel { session, events: self.model@[user].events.drop_first() }));
                proof {
                    assert forall|j: int| 0 <= j < self.entries@.len() && j != i implies
                        self.entries@[j] == before[j] by {}
                    assert forall|u: u128| #[trigger] self.model@.contains_key(u)
                        implies exists|k: int| 0 <= k < self.entries@.len() && (#[trigger] self.entries@[k]).user == u by {
                        let k = choose|k: int| 0 <= k < before.len() && (#[trigger] before[k]).user == u;
                        assert(self.entries@[k].user == u);
                    }
                }
                r
            },
        }
    }

    /// Pushes `e` into the queue of every registered session. Each push is
    /// independent, and none waits: a full queue drops its oldest event.
    pub fn broadcast(&mut self, e: &WSEvent)
        requires
            old(self).wf(),
        ensures
            final(self).wf(),
            final(self)@ == push_to_all(old(self)@, *e),
    {
        let ghost before = self.entries@;
        let mut i: usize = 0;
        while i < self.entries.len()
            invariant
                0 <= i <= self.entries@.len(),
                self.entries@.len() == before.len(),
                self.model@ == old(self)@,
                old(self).wf(),
                before == old(self).entries@,
                forall|j: int| 0 <= j < self.entries@.len() ==> (#[trigger] self.entries@[j]).queue.wf(),
                forall|j: int| 0 <= j < self.entries@.len() ==> {
                    &&& (#[trigger] self.entries@[j]).user == before[j].user
                    &&& self.entries@[j].session == before[j].session
                },
                forall|j: int| 0 <= j < i ==> (#[trigger] self.entries@[j]).channel() == pushed(before[j].channel(), *e),
                forall|j: int| i <= j < self.entries@.len() ==> (#[trigger] self.entries@[j]).channel() == before[j].channel(),
            decreases self.entries@.len() - i,
        {
            let copy = e.duplicate();
            let _ = self.entries[i].queue.push(copy);
            i = i + 1;
        }
        self.model = Ghost(push_to_all(self.model@, *e));
        proof {
            assert forall|u: u128| #[trigger] self.model@.contains_key(u)
                implies exists|k: int| 0 <= k < self.entries@.len() && (#[trigger] self.entries@[k]).user == u by {
                let k = choose|k: int| 0 <= k < before.len() && (#[trigger] before[k]).user == u;
                assert(self.entries@[k].user == u);
            }
        }
    }
}

} // verus!
