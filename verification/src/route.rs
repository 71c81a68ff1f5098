//! The routing rules of a runtime's steady-state loop, as a state machine
//! over packet views: what each inbound packet does to the cached tick and
//! prediction, what is delivered to the bots and when, and what the close
//! sentinel does. Every runtime's transitions are pinned to this model, and
//! the ordering and coalescing guarantees are proved about it once.

use vstd::prelude::*;
use crate::packet::Packet;

verus! {

/// A packet's observable fields: its wire tag and its payload bytes.
pub type PacketView = (u16, Seq<u8>);

/// The poll-phase state of a runtime: at most one pending tick, at most one
/// pending prediction, and whether the close sentinel has been seen.
pub ghost struct RouteState {
    pub pending_tick: Option<PacketView>,
    pub pending_prediction: Option<PacketView>,
    pub closed: bool,
}

/// The state a runtime starts its steady-state loop in.
pub open spec fn initial_route_state() -> RouteState {
    RouteState { pending_tick: None, pending_prediction: None, closed: false }
}

/// The packets a server sends during the steady-state loop: the close
/// sentinel, tick snapshots, comms and predictions. Anything else is a
/// protocol violation, fatal to the loop, so callers keep it out.
pub open spec fn is_inbound(p: PacketView) -> bool {
    p.0 == 0 || p.0 == 1 || p.0 == 9 || p.0 == 10
}

/// What observing one inbound packet does: the close sentinel is delivered
/// at once and ends the loop; a comms packet is delivered at once; a
/// prediction replaces any cached, undelivered prediction; a tick snapshot
/// replaces any cached tick. The second component is the sequence of
/// packets delivered to every bot, in order.
pub open spec fn route_pour(s: RouteState, p: PacketView) -> (RouteState, Seq<PacketView>) {
    if p.0 == 0 {
        (RouteState { closed: true, ..s }, seq![p])
    } else if p.0 == 9 {
        (s, seq![p])
    } else if p.0 == 10 {
        (RouteState { pending_prediction: Some(p), ..s }, Seq::empty())
    } else if p.0 == 1 {
        (RouteState { pending_tick: Some(p), ..s }, Seq::empty())
    } else {
        (s, Seq::empty())
    }
}

/// What a tick round delivers: nothing while no tick is pending; otherwise
/// the cached prediction first, if one is cached, then the tick, and both
/// caches are cleared — so neither is ever delivered twice.
pub open spec fn route_tick(s: RouteState) -> (RouteState, Seq<PacketView>) {
    match s.pending_tick {
        None => (s, Seq::empty()),
        Some(t) => {
            let delivered = match s.pending_prediction {
                None => seq![t],
                Some(pr) => seq![pr, t],
            };
            (
                RouteState { pending_tick: None, pending_prediction: None, closed: s.closed },
                delivered,
            )
        },
    }
}

/// Prediction coalescing: when two predictions arrive before the next
/// tick, only the second is ever delivered, exactly once, immediately
/// before that tick; the first is dropped without ever being delivered.
pub proof fn lemma_prediction_coalescing(
    s: RouteState,
    p1: PacketView,
    p2: PacketView,
    t: PacketView,
)
    requires
        p1.0 == 10,
        p2.0 == 10,
        t.0 == 1,
    ensures
        ({
            let (s1, d1) = route_pour(s, p1);
            let (s2, d2) = route_pour(s1, p2);
            let (s3, d3) = route_pour(s2, t);
            let (s4, d4) = route_tick(s3);
            &&& d1 == Seq::<PacketView>::empty()
            &&& d2 == Seq::<PacketView>::empty()
            &&& d3 == Seq::<PacketView>::empty()
            &&& d4 == seq![p2, t]
            &&& s4.pending_prediction is None
            &&& s4.pending_tick is None
            &&& (p1 != p2 ==> !d4.contains(p1))
        }),
{
    let d4 = route_tick(route_pour(route_pour(route_pour(s, p1).0, p2).0, t).0).1;
    assert(d4 == seq![p2, t]);
    if p1 != p2 {
        assert(p1 != t);
        assert forall|i: int| 0 <= i < d4.len() implies d4[i] != p1 by {
            if i == 0 {
                assert(d4[i] == p2);
            } else {
                assert(d4[i] == t);
            }
        }
        assert(!d4.contains(p1));
    }
}

/// Sentinel handling: one close sentinel reaching the runtime is delivered
/// to the bots as one broadcast, and the loop state is closed from then on.
pub proof fn lemma_close_broadcast(s: RouteState, c: PacketView)
    requires
        c.0 == 0,
    ensures
        route_pour(s, c).1 == seq![c],
        route_pour(s, c).0.closed,
{
}

/// A tick or prediction is never delivered at the moment it arrives: it is
/// cached, and a tick round leaves no pending tick behind.
pub proof fn lemma_cache_only_delivers_on_tick(s: RouteState, p: PacketView)
    requires
        p.0 == 1 || p.0 == 10,
    ensures
        route_pour(s, p).1 == Seq::<PacketView>::empty(),
        route_tick(route_pour(s, p).0).0.pending_tick is None,
{
}


/// Across rounds, nothing is delivered twice: a tick round consumes both
/// caches, so a second round straight after it delivers nothing at all.
pub proof fn lemma_no_double_delivery(s: RouteState)
    ensures
        route_tick(route_tick(s).0).1 == Seq::<PacketView>::empty(),
        route_tick(s).1.len() > 0 ==> route_tick(s).0.pending_tick is None && route_tick(
            s).0.pending_prediction is None,
{
}

/// Whether a packet is one the steady-state loop accepts from the server.
pub fn packet_is_inbound(p: &Packet) -> (r: bool)
    ensures
        r == is_inbound(p@),
{
    let tag = p.data_type();
    tag == 0 || tag == 1 || tag == 9 || tag == 10
}

} // verus!
