//! The packet queue owned by a listener: packets are appended as
//! datagrams arrive, truncated to the queue's receive capacity, and
//! removed in last-in-first-out order when the consumer pulls.

use vstd::prelude::*;

use crate::packet::Packet;
use crate::packet::PacketModel;

verus! {

/// What a datagram's bytes become once captured by a receive buffer of
/// capacity `cap`: bytes beyond the capacity are dropped.
pub open spec fn truncated(bytes: Seq<u8>, cap: nat) -> Seq<u8> {
    if bytes.len() <= cap {
        bytes
    } else {
        bytes.take(cap as int)
    }
}

/// The packet that queueing the raw datagram `d` produces under
/// receive capacity `cap`.
pub open spec fn received_packet(d: PacketModel, cap: nat) -> PacketModel {
    PacketModel { bytes: truncated(d.bytes, cap), addr: d.addr }
}

/// The queue contents after the raw datagram `d` is appended under
/// receive capacity `cap`.
pub open spec fn enqueued(s: Seq<PacketModel>, d: PacketModel, cap: nat) -> Seq<PacketModel> {
    s.push(received_packet(d, cap))
}

/// Every queued packet's payload fits the receive capacity `cap`.
pub open spec fn all_within(s: Seq<PacketModel>, cap: nat) -> bool {
    forall|i: int| 0 <= i < s.len() ==> (#[trigger] s[i]).bytes.len() <= cap
}

/// An ordered queue of received packets, owned by one listener. It is
/// appended to on receipt and popped from, most recent packet first,
/// when the consumer pulls. No upper bound on its length is enforced.
pub struct PacketQueue {
    packets: Vec<Packet>,
    capacity: usize,
}

impl View for PacketQueue {
    type V = Seq<PacketModel>;

    closed spec fn view(&self) -> Seq<PacketModel> {
        self.packets@.map_values(|p: Packet| p@)
    }
}

impl PacketQueue {
    /// The receive-buffer capacity the queue was created with.
    pub closed spec fn spec_capacity(&self) -> nat {
        self.capacity as nat
    }

    /// Every packet held by the queue fits its receive capacity.
    pub open spec fn wf(&self) -> bool {
        all_within(self@, self.spec_capacity())
    }

    /// Creates an empty queue whose receive buffer captures at most
    /// `capacity` bytes of each datagram.
    pub fn new(capacity: usize) -> (q: PacketQueue)
        ensures
            q@ == Seq::<PacketModel>::empty(),
            q.spec_capacity() == capacity as nat,
            q.wf(),
    {
        let q = PacketQueue { packets: Vec::new(), capacity };
        proof {
            assert(q@ =~= Seq::<PacketModel>::empty());
        }
        q
    }

    /// The receive-buffer capacity as a machine integer.
    pub fn capacity(&self) -> (c: usize)
        ensures
            c as nat == self.spec_capacity(),
    {
        self.capacity
    }

    /// How many packets are queued.
    pub fn len(&self) -> (n: usize)
        ensures
            n as nat == self@.len(),
    {
        self.packets.len()
    }

    /// Whether the queue holds no packet.
    pub fn is_empty(&self) -> (e: bool)
        ensures
            e <==> self@.len() == 0,
    {
        self.packets.len() == 0
    }

    /// Appends one received datagram: its bytes are truncated to the
    /// receive capacity and the rest are dropped, as a fixed-size
    /// receive buffer drops them.
    pub fn receive_datagram(&mut self, bytes: Vec<u8>, addr: String)
        ensures
            final(self)@ == enqueued(old(self)@, (PacketModel { bytes: bytes@, addr: addr@ }), old(self).spec_capacity()),
            final(self).spec_capacity() == old(self).spec_capacity(),
            old(self).wf() ==> final(self).wf(),
    {
        let mut captured = bytes;
        captured.truncate(self.capacity);
        let packet = Packet { bytes: captured, addr };
        proof {
            assert(packet@ == received_packet((PacketModel { bytes: bytes@, addr: packet.addr@ }), self.spec_capacity())) by {
                if bytes@.len() <= self.spec_capacity() {
                    assert(packet.bytes@ == bytes@);
                } else {
                    assert(packet.bytes@ == bytes@.subrange(0, self.capacity as int));
                    assert(packet.bytes@ =~= truncated(bytes@, self.spec_capacity()));
                }
            }
        }
        self.packets.push(packet);
        proof {
            assert(self@ =~= enqueued(old(self)@, (PacketModel { bytes: bytes@, addr: packet.addr@ }), old(self).spec_capacity()));
        }
    }

    /// Removes and returns the most recently appended packet, or
    /// returns nothing and leaves the queue unchanged when it is empty.
    pub fn pop_latest(&mut self) -> (r: Option<Packet>)
        ensures
            old(self)@.len() == 0 ==> r is None && final(self)@ == old(self)@,
            old(self)@.len() > 0 ==> (r matches Some(p)
                && p@ == old(self)@.last()
                && final(self)@ == old(self)@.drop_last()),
            final(self).spec_capacity() == old(self).spec_capacity(),
            old(self).wf() ==> final(self).wf(),
    {
        let r = self.packets.pop();
        proof {
            if old(self)@.len() > 0 {
                assert(self@ =~= old(self)@.drop_last());
            } else {
                assert(self@ =~= old(self)@);
            }
        }
        r
    }
}

} // verus!
