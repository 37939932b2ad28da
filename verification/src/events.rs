//! The bounded event stream between the decision loop and the consumer.
//!
//! A FIFO of `State` transitions with a fixed capacity. A push on a full
//! queue is refused, never silently dropped: the producer learns it must
//! wait. Consumers observe exactly the published order.

use vstd::prelude::*;

use crate::state::State;

verus! {

pub const EVENT_CAPACITY: usize = 100;

/// Bounded FIFO of state transitions.
#[derive(Debug)]
pub struct EventQueue {
    items: Vec<State>,
}

impl EventQueue {
    /// The queued events, oldest first.
    pub closed spec fn contents(&self) -> Seq<State> {
        self.items@
    }

    /// The queue never exceeds its capacity.
    pub closed spec fn wf(&self) -> bool {
        self.items@.len() <= EVENT_CAPACITY
    }

    /// An empty stream.
    pub fn new() -> (r: EventQueue)
        ensures
            r.wf(),
            r.contents() == Seq::<State>::empty(),
    {
        EventQueue { items: Vec::new() }
    }

    /// How many events are queued.
    pub fn len(&self) -> (r: usize)
        ensures
            r == self.contents().len(),
    {
        self.items.len()
    }

    /// Append an event unless the queue is full. Nothing is ever dropped:
    /// a refused push leaves the queue exactly as it was and tells the
    /// producer to wait.
    pub fn try_push(&mut self, event: State) -> (ok: bool)
        requires
            old(self).wf(),
        ensures
            final(self).wf(),
            ok == (old(self).contents().len() < EVENT_CAPACITY),
            ok ==> final(self).contents() == old(self).contents().push(event),
            !ok ==> final(self).contents() == old(self).contents(),
    {
        if self.items.len() < EVENT_CAPACITY {
            self.items.push(event);
            true
        } else {
            false
        }
    }

    /// Take the oldest event, if any.
    pub fn pop(&mut self) -> (r: Option<State>)
        ensures
            old(self).contents().len() == 0 ==> r is None && *final(self) == *old(self),
            old(self).contents().len() > 0 ==> {
                &&& r == Some(old(self).contents()[0])
                &&& final(self).contents() == old(self).contents().subrange(
                    1,
                    old(self).contents().len() as int,
                )
            },
    {
        if self.items.len() == 0 {
            None
        } else {
            Some(self.items.remove(0))
        }
    }

    /// Drain the whole queue: the consumer receives exactly the events
    /// the producer queued, in publication order.
    pub fn drain(&mut self) -> (r: Vec<State>)
        ensures
            r@ == old(self).contents(),
            final(self).contents() == Seq::<State>::empty(),
    {
        let mut out: Vec<State> = Vec::new();
        while self.items.len() > 0
            invariant
                out@ + self.items@ == old(self).contents(),
            decreases self.items@.len(),
        {
            let head = self.items.remove(0);
            out.push(head);
            proof {
                assert(out@ + self.items@ =~= old(self).contents());
            }
        }
        proof {
            assert(out@ =~= old(self).contents());
        }
        out
    }
}

} // verus!
