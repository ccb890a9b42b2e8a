//! The bridge between the native watch callback and a session's event
//! loop: change notifications are buffered in a bounded FIFO queue, and a
//! notification that arrives while the queue is full is dropped rather
//! than blocking the notification thread. Dropping is harmless here: a
//! session only cares that some change occurred, not how many.

use vstd::prelude::*;

verus! {

/// An opaque change notification: something changed under the watched
/// tree. It carries no further detail; any event suffices to trigger a
/// reload.
#[derive(Clone, Copy, Debug, PartialEq, Eq, Structural)]
pub struct FileEvent;

/// A bounded FIFO queue of change notifications with best-effort insertion.
pub struct EventQueue {
    items: Vec<FileEvent>,
    capacity: usize,
}

impl EventQueue {
    /// The pending notifications, oldest first.
    pub closed spec fn view(&self) -> Seq<FileEvent> {
        self.items@
    }

    /// The fixed capacity the queue was made with.
    pub closed spec fn cap(&self) -> nat {
        self.capacity as nat
    }

    /// The queue never holds more than its capacity.
    pub closed spec fn wf(&self) -> bool {
        self.items@.len() <= self.capacity
    }

    /// An empty queue of the given capacity.
    pub fn new(capacity: usize) -> (q: EventQueue)
        ensures
            q.wf(),
            q@ == Seq::<FileEvent>::empty(),
            q.cap() == capacity,
    {
        let q = EventQueue { items: Vec::new(), capacity };
        proof {
            assert(q@ =~= Seq::<FileEvent>::empty());
        }
        q
    }

    /// How many notifications are pending.
    pub fn len(&self) -> (n: usize)
        ensures
            n == self@.len(),
    {
        self.items.len()
    }

    /// Best-effort insertion, as the watch callback performs it: the
    /// notification is kept exactly when there is room, and dropped
    /// otherwise, never blocking.
    pub fn try_push(&mut self, e: FileEvent) -> (accepted: bool)
        requires
            old(self).wf(),
        ensures
            final(self).wf(),
            final(self).cap() == old(self).cap(),
            accepted <==> old(self)@.len() < old(self).cap(),
            accepted ==> final(self)@ == old(self)@.push(e),
            !accepted ==> final(self)@ == old(self)@,
    {
        if self.items.len() < self.capacity {
            self.items.push(e);
            true
        } else {
            false
        }
    }

    /// Takes the oldest pending notification, if any.
    pub fn pop(&mut self) -> (r: Option<FileEvent>)
        requires
            old(self).wf(),
        ensures
            final(self).wf(),
            final(self).cap() == old(self).cap(),
            old(self)@.len() == 0 ==> r is None && final(self)@ == old(self)@,
            old(self)@.len() > 0 ==> r == Some(old(self)@[0]) && final(self)@ == old(
                self,
            )@.subrange(1, old(self)@.len() as int),
    {
        if self.items.len() == 0 {
            None
        } else {
            let e = self.items.remove(0);
            proof {
                assert(self.items@ =~= old(self)@.subrange(1, old(self)@.len() as int));
            }
            Some(e)
        }
    }
}

/// The queue contents after a burst of notifications is offered to a queue
/// holding `q`, of capacity `cap`: each notification in turn is kept only
/// while there is room, as [`EventQueue::try_push`] does.
pub open spec fn offered(q: Seq<FileEvent>, cap: nat, events: Seq<FileEvent>) -> Seq<FileEvent>
    decreases events.len(),
{
    if events.len() == 0 {
        q
    } else {
        let q1 = if q.len() < cap {
            q.push(events[0])
        } else {
            q
        };
        offered(q1, cap, events.drop_first())
    }
}

/// Law: a burst of notifications fills the queue up to its capacity and no
/// further; the queue keeps at most as many new notifications as the burst
/// holds, and at least one survives when a non-empty burst reaches an
/// empty queue of positive capacity.
pub proof fn lemma_offered_bounds(q: Seq<FileEvent>, cap: nat, events: Seq<FileEvent>)
    requires
        q.len() <= cap,
    ensures
        offered(q, cap, events).len() == if q.len() + events.len() <= cap {
            (q.len() + events.len()) as int
        } else {
            cap as int
        },
        offered(q, cap, events).len() - q.len() <= events.len(),
        q.len() == 0 && cap >= 1 && events.len() >= 1 ==> offered(q, cap, events).len() >= 1,
    decreases events.len(),
{
    if events.len() == 0 {
    } else {
        let q1 = if q.len() < cap {
            q.push(events[0])
        } else {
            q
        };
        lemma_offered_bounds(q1, cap, events.drop_first());
    }
}

} // verus!
