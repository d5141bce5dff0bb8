//! Laws of the queue/protocol engine, each stated over the same spec
//! functions that the executable functions' contracts use.

use vstd::prelude::*;

use crate::packet::PacketModel;
use crate::protocol::queue_after;
use crate::protocol::reply_to;
use crate::protocol::MsgModel;
use crate::queue::all_within;
use crate::queue::enqueued;
use crate::queue::received_packet;

verus! {

/// The queue contents after `k` of the packets queued in `s` have been
/// pulled.
pub open spec fn drained(s: Seq<PacketModel>, k: nat) -> Seq<PacketModel>
    recommends
        k <= s.len(),
{
    s.take((s.len() - k) as int)
}

/// A datagram whose bytes fit the receive capacity is queued exactly
/// as it arrived.
pub proof fn lemma_capacity_fit(d: PacketModel, cap: nat)
    requires
        d.bytes.len() <= cap,
    ensures
        received_packet(d, cap) == d,
{
    assert(received_packet(d, cap) =~= d);
}

/// Exactly as many pulls succeed as packets are queued: starting from
/// queue contents `s`, each of the first `s.len()` requests is
/// answered with a delivery — of the most recently queued packet not
/// yet pulled — and takes the queue one step further down, and the
/// request after those is answered with the empty signal.
pub proof fn lemma_drain_count(s: Seq<PacketModel>)
    ensures
        drained(s, 0) == s,
        forall|k: nat|
            k < s.len() ==> reply_to(#[trigger] drained(s, k), MsgModel::Request)
                == MsgModel::Delivered(s[s.len() - 1 - k]),
        forall|k: nat|
            k < s.len() ==> queue_after(#[trigger] drained(s, k), MsgModel::Request) == drained(
                s,
                k + 1,
            ),
        reply_to(drained(s, s.len()), MsgModel::Request) == MsgModel::Empty,
{
    assert(drained(s, 0) =~= s);
    assert(drained(s, s.len()).len() == 0);
    assert forall|k: nat| k < s.len() implies reply_to(
        #[trigger] drained(s, k),
        MsgModel::Request,
    ) == MsgModel::Delivered(s[s.len() - 1 - k]) by {
        assert(drained(s, k).len() == s.len() - k);
        assert(drained(s, k).last() == s[s.len() - 1 - k]);
    }
    assert forall|k: nat| k < s.len() implies queue_after(
        #[trigger] drained(s, k),
        MsgModel::Request,
    ) == drained(s, k + 1) by {
        assert(drained(s, k).len() == s.len() - k);
        assert(drained(s, k).drop_last() =~= drained(s, k + 1));
    }
}

/// Pulls come back in last-in-first-out order: when three datagrams
/// that fit the receive capacity are queued in the order first, second,
/// third before any pull, the first pull delivers the third, the next
/// delivers the second, the one after that delivers the first, and the
/// queue is then back to what it held before the three arrived.
pub proof fn lemma_lifo_order(
    s: Seq<PacketModel>,
    first: PacketModel,
    second: PacketModel,
    third: PacketModel,
    cap: nat,
)
    requires
        first.bytes.len() <= cap,
        second.bytes.len() <= cap,
        third.bytes.len() <= cap,
    ensures
        ({
            let queued3 = enqueued(enqueued(enqueued(s, first, cap), second, cap), third, cap);
            let queued2 = queue_after(queued3, MsgModel::Request);
            let queued1 = queue_after(queued2, MsgModel::Request);
            &&& reply_to(queued3, MsgModel::Request) == MsgModel::Delivered(third)
            &&& reply_to(queued2, MsgModel::Request) == MsgModel::Delivered(second)
            &&& reply_to(queued1, MsgModel::Request) == MsgModel::Delivered(first)
            &&& queue_after(queued1, MsgModel::Request) == s
        }),
{
    lemma_capacity_fit(first, cap);
    lemma_capacity_fit(second, cap);
    lemma_capacity_fit(third, cap);
    let queued3 = enqueued(enqueued(enqueued(s, first, cap), second, cap), third, cap);
    let queued2 = queue_after(queued3, MsgModel::Request);
    let queued1 = queue_after(queued2, MsgModel::Request);
    assert(queued3 == s.push(first).push(second).push(third));
    assert(queued2 =~= s.push(first).push(second));
    assert(queued1 =~= s.push(first));
    assert(queue_after(queued1, MsgModel::Request) =~= s);
}

/// The empty queue is stable under pulling: a request against an empty
/// queue is answered with the empty signal and leaves the queue empty,
/// so repeated pulls keep being answered the same way.
pub proof fn lemma_empty_is_stable(s: Seq<PacketModel>)
    requires
        s.len() == 0,
    ensures
        reply_to(s, MsgModel::Request) == MsgModel::Empty,
        queue_after(s, MsgModel::Request) == s,
{
}

/// Queueing truncates to the receive capacity and to nothing more: the
/// packet just queued fits the capacity, and a queue whose packets all
/// fit still has that property after any datagram is queued.
pub proof fn lemma_truncation_bound(s: Seq<PacketModel>, d: PacketModel, cap: nat)
    ensures
        enqueued(s, d, cap).last().bytes.len() <= cap,
        all_within(s, cap) ==> all_within(enqueued(s, d, cap), cap),
{
    let e = enqueued(s, d, cap);
    assert(e.last() == received_packet(d, cap));
    if all_within(s, cap) {
        assert forall|i: int| 0 <= i < e.len() implies (#[trigger] e[i]).bytes.len() <= cap by {
            if i < s.len() {
                assert(e[i] == s[i]);
            }
        }
    }
}

/// The engine returns a datagram's bytes unchanged: queueing a
/// datagram that fits the receive capacity and then pulling delivers
/// that datagram exactly, payload and source endpoint alike, and
/// leaves the queue as it was.
pub proof fn lemma_transport_round_trip(s: Seq<PacketModel>, d: PacketModel, cap: nat)
    requires
        d.bytes.len() <= cap,
    ensures
        reply_to(enqueued(s, d, cap), MsgModel::Request) == MsgModel::Delivered(d),
        queue_after(enqueued(s, d, cap), MsgModel::Request) == s,
{
    lemma_capacity_fit(d, cap);
    assert(queue_after(enqueued(s, d, cap), MsgModel::Request) =~= s);
}

} // verus!
