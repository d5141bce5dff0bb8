//! The packet record: one received datagram's bytes together with the
//! textual endpoint it came from.

use vstd::prelude::*;

verus! {

/// One received, unparsed datagram. It is owned by the queue from the
/// moment it is appended until it is popped, at which point ownership
/// moves to the consumer.
#[derive(Debug)]
pub struct Packet {
    /// The datagram's payload bytes.
    pub bytes: Vec<u8>,
    /// The sender's endpoint as a textual `host:port` string.
    pub addr: String,
}

/// The mathematical model of a [`Packet`]: its bytes as a sequence and
/// its source endpoint as a character sequence.
#[verifier::ext_equal]
pub struct PacketModel {
    pub bytes: Seq<u8>,
    pub addr: Seq<char>,
}

impl View for Packet {
    type V = PacketModel;

    open spec fn view(&self) -> PacketModel {
        PacketModel { bytes: self.bytes@, addr: self.addr@ }
    }
}

impl Packet {
    /// Builds a packet from its payload bytes and source endpoint.
    pub fn new(bytes: Vec<u8>, addr: String) -> (p: Packet)
        ensures
            p@ == (PacketModel { bytes: bytes@, addr: addr@ }),
    {
        Packet { bytes, addr }
    }
}

} // verus!
