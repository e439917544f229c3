//! Bounded first-in first-out queue of pending events for one session.
//!
//! Producers never wait: when the queue already holds `CHANNEL_CAPACITY`
//! items, pushing drops the oldest unread one.
use vstd::prelude::*;

verus! {

/// Number of pending events a session's queue holds.
pub const CHANNEL_CAPACITY: usize = 100;

/// The queue's contents after pushing `e` onto `s` under the drop-oldest policy.
pub open spec fn bounded_push<T>(s: Seq<T>, e: T) -> Seq<T> {
    if s.len() < CHANNEL_CAPACITY {
        s.push(e)
    } else {
        s.drop_first().push(e)
    }
}

pub struct BoundedQueue<T> {
    items: Vec<T>,
}

impl<T> View for BoundedQueue<T> {
    type V = Seq<T>;

    closed spec fn view(&self) -> Seq<T> {
        self.items@
    }
}

impl<T> BoundedQueue<T> {
    pub closed spec fn wf(&self) -> bool {
        self.items@.len() <= CHANNEL_CAPACITY
    }

    pub fn new() -> (r: Self)
        ensures
            r.wf(),
            r@ == Seq::<T>::empty(),
    {
        BoundedQueue { items: Vec::new() }
    }

    pub fn len(&self) -> (r: usize)
        ensures
            r == self@.len(),
    {
        self.items.len()
    }

    /// Appends `e`; when full, first drops and returns the oldest item.
    pub fn push(&mut self, e: T) -> (dropped: Option<T>)
        requires
            old(self).wf(),
        ensures
            final(self).wf(),
            final(self)@ == bounded_push(old(self)@, e),
            old(self)@.len() < CHANNEL_CAPACITY ==> dropped is None,
            old(self)@.len() >= CHANNEL_CAPACITY ==> dropped == Some(old(self)@[0]),
    {
        let dropped = if self.items.len() < CHANNEL_CAPACITY {
            None
        } else {
            Some(self.items.remove(0))
        };
        self.items.push(e);
        proof {
            if old(self)@.len() >= CHANNEL_CAPACITY {
                assert(old(self)@.remove(0) =~= old(self)@.drop_first());
            }
        }
        dropped
    }

    /// Removes and returns the oldest item.
    pub fn pop(&mut self) -> (r: Option<T>)
        requires
            old(self).wf(),
        ensures
            final(self).wf(),
            old(self)@.len() == 0 ==> r is None && final(self)@ == old(self)@,
            old(self)@.len() > 0 ==> r == Some(old(self)@[0]) && final(self)@ == old(self)@.drop_first(),
    {
        if self.items.len() == 0 {
            None
        } else {
            let e = self.items.remove(0);
            assert(old(self)@.remove(0) =~= old(self)@.drop_first());
            Some(e)
        }
    }
}

/// Pushing more events than the capacity never blocks and keeps the newest
/// `CHANNEL_CAPACITY` of them, oldest first.
pub proof fn lemma_overflow_keeps_newest<T>(s: Seq<T>, e: T)
    requires
        s.len() == CHANNEL_CAPACITY,
    ensures
        bounded_push(s, e).len() == CHANNEL_CAPACITY,
        bounded_push(s, e) == s.subrange(1, CHANNEL_CAPACITY as int).push(e),
{
    assert(s.drop_first() =~= s.subrange(1, CHANNEL_CAPACITY as int));
}

} // verus!
