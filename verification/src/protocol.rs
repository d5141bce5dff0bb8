//! The request/reply protocol between the consumer and the listener,
//! and the listener's poll-step transition.
//!
//! A listener thread runs an unending loop; each iteration takes at
//! most one pending control message and at most one freshly received
//! datagram, and [`poll_step`] is that iteration as a pure transition
//! on the queue. The consumer sends [`Msg::Request`], blocks for the
//! reply, and reads it through [`interpret_reply`].

use vstd::prelude::*;

use crate::errors::RecvError;
use crate::packet::Packet;
use crate::packet::PacketModel;
use crate::queue::enqueued;
use crate::queue::PacketQueue;

verus! {

/// The control vocabulary exchanged between consumer and listener.
/// Messages are created per round-trip and never persisted.
#[derive(Debug)]
pub enum Msg {
    /// Consumer asks for the next queued packet.
    Request,
    /// Listener answers with one packet.
    Delivered(Packet),
    /// Listener answers that the queue held nothing.
    Empty,
    /// Listener answers that it received an unexpected control
    /// message.
    Fault,
}

/// The mathematical model of a [`Msg`].
pub enum MsgModel {
    Request,
    Delivered(PacketModel),
    Empty,
    Fault,
}

impl View for Msg {
    type V = MsgModel;

    open spec fn view(&self) -> MsgModel {
        match self {
            Msg::Request => MsgModel::Request,
            Msg::Delivered(p) => MsgModel::Delivered(p@),
            Msg::Empty => MsgModel::Empty,
            Msg::Fault => MsgModel::Fault,
        }
    }
}

/// The view of an optional message.
pub open spec fn opt_msg_view(m: Option<Msg>) -> Option<MsgModel> {
    match m {
        Option::None => Option::None,
        Option::Some(inner) => Option::Some(inner@),
    }
}

/// The view of an optional packet.
pub open spec fn opt_packet_view(d: Option<Packet>) -> Option<PacketModel> {
    match d {
        Option::None => Option::None,
        Option::Some(p) => Option::Some(p@),
    }
}

/// The reply the listener gives to control message `c` when its queue
/// holds `s`: a request is answered with the most recently appended
/// packet, or with the empty signal when nothing is queued; anything
/// other than a request is answered with a fault.
pub open spec fn reply_to(s: Seq<PacketModel>, c: MsgModel) -> MsgModel {
    match c {
        MsgModel::Request => if s.len() == 0 {
            MsgModel::Empty
        } else {
            MsgModel::Delivered(s.last())
        },
        _ => MsgModel::Fault,
    }
}

/// The queue contents after the listener services control message `c`:
/// a delivery removes the most recently appended packet; everything
/// else leaves the queue as it was.
pub open spec fn queue_after(s: Seq<PacketModel>, c: MsgModel) -> Seq<PacketModel> {
    if c is Request && s.len() > 0 {
        s.drop_last()
    } else {
        s
    }
}

/// The reply one poll iteration produces: none when no control message
/// was pending, else the reply to that message.
pub open spec fn service_reply(s: Seq<PacketModel>, c: Option<MsgModel>) -> Option<MsgModel> {
    match c {
        Option::None => Option::None,
        Option::Some(m) => Option::Some(reply_to(s, m)),
    }
}

/// The queue contents after the servicing half of one poll iteration.
pub open spec fn after_service(s: Seq<PacketModel>, c: Option<MsgModel>) -> Seq<PacketModel> {
    match c {
        Option::None => s,
        Option::Some(m) => queue_after(s, m),
    }
}

/// The queue contents after the receiving half of one poll iteration:
/// a received datagram is appended, truncated to the receive capacity.
pub open spec fn after_receive(
    s: Seq<PacketModel>,
    d: Option<PacketModel>,
    cap: nat,
) -> Seq<PacketModel> {
    match d {
        Option::None => s,
        Option::Some(dm) => enqueued(s, dm, cap),
    }
}

/// Services one control message against the queue and returns the
/// reply to send back.
pub fn service_request(q: &mut PacketQueue, msg: Msg) -> (reply: Msg)
    ensures
        reply@ == reply_to(old(q)@, msg@),
        final(q)@ == queue_after(old(q)@, msg@),
        final(q).spec_capacity() == old(q).spec_capacity(),
        old(q).wf() ==> final(q).wf(),
{
    match msg {
        Msg::Request => {
            match q.pop_latest() {
                Option::Some(p) => Msg::Delivered(p),
                Option::None => Msg::Empty,
            }
        },
        _ => Msg::Fault,
    }
}

/// One iteration of the listener's poll loop as a transition on the
/// queue: first at most one pending control message is serviced
/// against the queue as it stands, then at most one freshly received
/// datagram is appended. A datagram received in the same iteration is
/// therefore never handed out by that iteration's reply.
pub fn poll_step(q: &mut PacketQueue, control: Option<Msg>, datagram: Option<Packet>) -> (reply: Option<
    Msg,
>)
    ensures
        opt_msg_view(reply) == service_reply(old(q)@, opt_msg_view(control)),
        final(q)@ == after_receive(
            after_service(old(q)@, opt_msg_view(control)),
            opt_packet_view(datagram),
            old(q).spec_capacity(),
        ),
        final(q).spec_capacity() == old(q).spec_capacity(),
        old(q).wf() ==> final(q).wf(),
{
    let reply = match control {
        Option::None => Option::None,
        Option::Some(msg) => Option::Some(service_request(q, msg)),
    };
    match datagram {
        Option::None => {},
        Option::Some(d) => {
            q.receive_datagram(d.bytes, d.addr);
        },
    }
    reply
}

/// Reads a reply on the consumer side: a delivery yields its packet,
/// the empty signal yields nothing, and any other message is a
/// recoverable protocol fault, kept apart from "nothing queued".
pub fn interpret_reply(reply: Msg) -> (r: Result<Option<Packet>, RecvError>)
    ensures
        reply@ matches MsgModel::Delivered(pm) ==> (r matches Ok(Some(p)) && p@ == pm),
        reply@ is Empty ==> r matches Ok(None),
        reply@ is Request || reply@ is Fault ==> (r matches Err(e) && e == RecvError::Fault),
{
    match reply {
        Msg::Delivered(p) => Ok(Some(p)),
        Msg::Empty => Ok(None),
        _ => Err(RecvError::Fault),
    }
}

} // verus!
