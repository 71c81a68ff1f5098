//! The packet queue: an ordered, append-only accumulator of outgoing
//! packets owned by one producer between hand-offs.

use vstd::prelude::*;
use crate::packet::Packet;

verus! {

/// A queue of packets to be sent to the server. Pushing appends; draining
/// returns everything and leaves the queue empty in one step, so nothing is
/// read twice or lost between two drains.
pub struct PacketQueue {
    internal_queue: Vec<Packet>,
}

impl View for PacketQueue {
    type V = Seq<Packet>;

    closed spec fn view(&self) -> Seq<Packet> {
        self.internal_queue@
    }
}

impl PacketQueue {
    /// An empty queue with room for `capacity` packets before it grows.
    pub fn new(capacity: usize) -> (r: Self)
        ensures
            r@ == Seq::<Packet>::empty(),
    {
        PacketQueue { internal_queue: Vec::with_capacity(capacity) }
    }

    /// Appends one packet.
    pub fn push(&mut self, packet: Packet)
        ensures
            final(self)@ == old(self)@.push(packet),
    {
        self.internal_queue.push(packet);
    }

    /// Atomically returns the contents and empties the queue.
    pub fn empty(&mut self) -> (r: Vec<Packet>)
        ensures
            r@ == old(self)@,
            final(self)@ == Seq::<Packet>::empty(),
    {
        let mut taken: Vec<Packet> = Vec::new();
        core::mem::swap(&mut taken, &mut self.internal_queue);
        taken
    }
}

impl Default for PacketQueue {
    /// An empty queue with a small initial capacity.
    fn default() -> (r: Self)
        ensures
            r@ == Seq::<Packet>::empty(),
    {
        PacketQueue::new(16)
    }
}

} // verus!
