//! Bounded FIFO of outstanding TCP ACK sequence numbers.
//!
//! The store remembers the last `ACK_CAPACITY` sequence numbers of ACKs
//! we sent, evicting the oldest first, and keeps a side index from
//! sequence number to "still outstanding" so that an incoming ACK can be
//! cleared in O(1). The store is advisory: its contents never by
//! themselves drive an outage verdict.

use std::collections::HashMap;
use std::collections::VecDeque;
use vstd::prelude::*;

verus! {

broadcast use vstd::std_specs::hash::group_hash_axioms, vstd::std_specs::vecdeque::group_vec_dequeue_axioms;

pub const ACK_CAPACITY: usize = 1000;

/// What recording a fresh outbound ACK does to the queue and the side
/// index: evict the oldest entry first when the queue is full.
pub open spec fn spec_add_ack(q: Seq<u32>, m: Map<u32, bool>, ack: u32) -> (Seq<u32>, Map<
    u32,
    bool,
>) {
    if q.len() < ACK_CAPACITY {
        (q.push(ack), m.insert(ack, true))
    } else {
        (q.subrange(1, q.len() as int).push(ack), m.remove(q[0]).insert(ack, true))
    }
}

/// Outstanding ACK sequence numbers, oldest first, with a side index for
/// O(1) membership updates.
#[derive(Debug)]
pub struct AckStore {
    acks: VecDeque<u32>,
    acks_map: HashMap<u32, bool>,
}

impl AckStore {
    /// The outstanding sequence numbers, oldest first.
    pub closed spec fn queue(&self) -> Seq<u32> {
        self.acks@
    }

    /// The side index: which sequence numbers are still outstanding.
    pub closed spec fn index(&self) -> Map<u32, bool> {
        self.acks_map@
    }

    /// The queue never exceeds its capacity.
    pub closed spec fn wf(&self) -> bool {
        self.acks@.len() <= ACK_CAPACITY
    }

    /// An empty store.
    pub fn new() -> (r: AckStore)
        ensures
            r.wf(),
            r.queue() == Seq::<u32>::empty(),
            r.index() == Map::<u32, bool>::empty(),
    {
        AckStore {
            acks: VecDeque::with_capacity(ACK_CAPACITY),
            acks_map: HashMap::with_capacity(ACK_CAPACITY),
        }
    }

    /// Record the sequence number of an ACK we sent. A full queue first
    /// evicts its oldest entry, index included.
    pub fn add_ack(&mut self, ack: u32)
        requires
            old(self).wf(),
        ensures
            final(self).wf(),
            final(self).queue() == spec_add_ack(old(self).queue(), old(self).index(), ack).0,
            final(self).index() == spec_add_ack(old(self).queue(), old(self).index(), ack).1,
    {
        if self.acks.len() >= ACK_CAPACITY {
            if let Some(rack) = self.acks.pop_front() {
                self.acks_map.remove(&rack);
            }
        }
        self.acks.push_back(ack);
        self.acks_map.insert(ack, true);
    }

    /// Mark an outstanding ACK as answered. The queue itself is left in
    /// place; only the side index changes.
    pub fn remove_ack(&mut self, ack: u32)
        ensures
            final(self).wf() == old(self).wf(),
            final(self).queue() == old(self).queue(),
            final(self).index() == old(self).index().insert(ack, false),
    {
        self.acks_map.insert(ack, false);
    }

    /// How many sequence numbers the queue currently holds.
    pub fn len(&self) -> (r: usize)
        ensures
            r == self.queue().len(),
    {
        self.acks.len()
    }

    /// Whether a sequence number is marked outstanding in the index.
    pub fn is_outstanding(&self, ack: u32) -> (r: bool)
        ensures
            r == (self.index().contains_key(ack) && self.index()[ack]),
    {
        match self.acks_map.get(&ack) {
            Some(v) => *v,
            None => false,
        }
    }
}

} // verus!
