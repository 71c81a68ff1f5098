//! The multi-threaded agent runtime: one worker per controlled entity, a
//! private inbound channel per worker, one shared outbound channel, and a
//! tick-synchronized fan-out/fan-in protocol across them.
//!
//! The session here owns the channel ends and every routing decision; what
//! it cannot own is the socket and the spawning of threads, which the
//! embedding application does around it. Each broadcast the session
//! performs sends one copy of the packet to every worker's inbound channel,
//! in worker-spawn order, and appends one entry to the ghost delivery log,
//! so the log reads as the chronological sequence of broadcasts.

use vstd::prelude::*;
use std::sync::Arc;
use crate::packet::{Packet, RLBotError, clone_packet};
use crate::queue::PacketQueue;
use crate::records::{BallPrediction, ControllableInfo, FieldInfo, GamePacket, MatchComm,
    MatchConfiguration};
use crate::route::{RouteState, PacketView, initial_route_state, is_inbound, route_pour,
    route_tick};
use crate::wire::{encode_batch, spec_frames};

verus! {

/// Why the agent runtime stopped: a worker's channel closed under it
/// (its thread panicked), or the connection layer failed.
#[derive(Debug, Clone, PartialEq)]
pub enum AgentError {
    AgentPanic,
    PacketParseError(RLBotError),
}

/// Decision logic for one controlled entity. Implementations are supplied
/// by the embedding application; construction may already enqueue packets,
/// and the queue handed to each hook is drained and sent after the next
/// tick.
pub trait Agent: Sized {
    fn new(
        team: u32,
        controllable_info: ControllableInfo,
        match_config: Arc<MatchConfiguration>,
        field_info: Arc<FieldInfo>,
        packet_queue: &mut PacketQueue,
    ) -> Self;

    fn tick(&mut self, game_packet: &GamePacket, packet_queue: &mut PacketQueue);

    fn on_match_comm(&mut self, match_comm: &MatchComm, packet_queue: &mut PacketQueue);

    fn on_ball_prediction(&mut self, ball_prediction: &BallPrediction);
}

/// How many workers agent mode spawns for a completed handshake: one per
/// controllable the team handed over. Nothing when the team handed over
/// none — the match connection is then already complete, and the runtime
/// returns success with no workers spawned and no further protocol
/// traffic.
pub fn spawn_plan(info: &crate::records::StartingInfo) -> (r: Option<usize>)
    ensures
        match r {
            Some(n) => n == info.controllable_team_info.controllables@.len() && n > 0,
            None => info.controllable_team_info.controllables@.len() == 0,
        },
{
    let n = info.controllable_team_info.controllables.len();
    if n == 0 {
        None
    } else {
        Some(n)
    }
}

/// The channel ends a worker runs on: its slot number, its private inbound
/// channel, and a handle to the shared outbound channel.
pub struct WorkerLink {
    pub index: usize,
    pub incoming: kanal::Receiver<Packet>,
    pub outgoing: kanal::Sender<(usize, Vec<Packet>)>,
}

impl WorkerLink {
    /// The slot this link feeds: worker `i` fills slot `i` of every round.
    pub closed spec fn slot(&self) -> int {
        self.index as int
    }
}

/// Whether a worker answers this packet with an outbound batch: exactly
/// the tick snapshots, and nothing else. This is what keeps the fixed-slot
/// collection of a tick round in step with the broadcasts — one batch per
/// worker per tick, never more, never fewer.
pub fn responds_with_batch(p: &Packet) -> (r: bool)
    ensures
        r == (p@.0 == 1),
{
    p.data_type() == 1
}

/// One worker execution unit: its bot, the queue the bot's hooks fill,
/// and the channel ends it runs on. The thread that hosts it constructs it
/// once and then calls `step` until `step` says to stop; the worker never
/// decides anything outside these two functions.
pub struct AgentWorker<T: Agent> {
    bot: T,
    queue: PacketQueue,
    link: WorkerLink,
    received: Ghost<Seq<PacketView>>,
    answered: Ghost<Seq<PacketView>>,
}

impl<T: Agent> AgentWorker<T> {
    /// The slot this worker reports into: every batch it sends on the
    /// shared channel travels tagged with this number, so the runtime's
    /// fixed-slot collection files it under this worker, wherever in the
    /// arrival order it lands.
    pub closed spec fn slot(&self) -> int {
        self.link.slot()
    }

    /// The packets this worker has handled, in order.
    pub closed spec fn received_log(&self) -> Seq<PacketView> {
        self.received@
    }

    /// The packets this worker has answered with an outbound batch, in
    /// order. That this is exactly the tick snapshots among the received
    /// packets is the worker's half of the one-batch-per-round discipline:
    /// the runtime's fixed-slot collection waits for one batch per worker
    /// per broadcast tick, and the worker produces one then and only then.
    pub closed spec fn answered_log(&self) -> Seq<PacketView> {
        self.answered@
    }

    /// Constructs the bot exactly once (its constructor may already
    /// enqueue packets) and reports the construction batch — everything
    /// the constructor pushed, in push order, possibly empty — as the one
    /// batch the ready barrier waits for, before any inbound packet is
    /// received: the worker it hands back has handled and answered
    /// nothing yet. Nothing when the shared channel is already closed;
    /// the runtime observes that as a worker failure.
    pub fn new(
        link: WorkerLink,
        team: u32,
        controllable_info: ControllableInfo,
        match_config: Arc<MatchConfiguration>,
        field_info: Arc<FieldInfo>,
    ) -> (r: Option<AgentWorker<T>>)
        ensures
            r matches Some(w) ==> w.slot() == link.slot() && w.received_log()
                == Seq::<PacketView>::empty() && w.answered_log() == Seq::<PacketView>::empty(),
    {
        let mut queue = PacketQueue::default();
        let bot = T::new(team, controllable_info, match_config, field_info, &mut queue);
        let first = queue.empty();
        match link.outgoing.send((link.index, first)) {
            Ok(()) => Some(AgentWorker {
                bot,
                queue,
                link,
                received: Ghost(Seq::empty()),
                answered: Ghost(Seq::empty()),
            }),
            Err(_) => None,
        }
    }

    /// Handles the next broadcast packet: the close sentinel ends the
    /// worker; a tick snapshot goes to the bot's tick hook and is answered
    /// with exactly one batch (the drained queue, possibly empty); comms
    /// and predictions go to their hooks without an answer, exactly as
    /// `responds_with_batch` says. Returns whether the worker should keep
    /// running; a closed channel in either direction also ends it.
    pub fn step(&mut self) -> (r: bool)
        ensures
            r ==> exists|pv: PacketView|
                {
                    &&& pv.0 != 0
                    &&& final(self).received_log() == old(self).received_log().push(pv)
                    &&& final(self).answered_log() == if pv.0 == 1 {
                        old(self).answered_log().push(pv)
                    } else {
                        old(self).answered_log()
                    }
                },
            !r ==> final(self).received_log() == old(self).received_log() && final(
                self).answered_log() == old(self).answered_log(),
    {
        let packet = match self.link.incoming.recv() {
            Ok(p) => p,
            Err(_) => {
                return false;
            },
        };
        let answers = responds_with_batch(&packet);
        let ghost pv = packet@;
        if packet.data_type() == 0 {
            // the close sentinel ends the worker without an answer
            return false;
        }
        match packet {
            Packet::GamePacket(x) => {
                self.bot.tick(&x, &mut self.queue);
            },
            Packet::MatchComm(x) => {
                self.bot.on_match_comm(&x, &mut self.queue);
            },
            Packet::BallPrediction(x) => {
                self.bot.on_ball_prediction(&x);
            },
            _ => {
                // only server-to-client steady-state packets are broadcast
            },
        }
        if answers {
            let batch = self.queue.empty();
            match self.link.outgoing.send((self.link.index, batch)) {
                Ok(()) => (),
                Err(_) => {
                    return false;
                },
            }
            self.answered = Ghost(self.answered@.push(pv));
        }
        self.received = Ghost(self.received@.push(pv));
        proof {
            assert({
                &&& pv.0 != 0
                &&& self.received_log() == old(self).received_log().push(pv)
                &&& self.answered_log() == if pv.0 == 1 {
                    old(self).answered_log().push(pv)
                } else {
                    old(self).answered_log()
                }
            });
        }
        true
    }
}

/// The views of a sequence of batches.
pub open spec fn batch_views(s: Seq<Vec<Packet>>) -> Seq<Seq<Packet>> {
    s.map_values(|v: Vec<Packet>| v@)
}

/// Concatenates per-worker batches in slot order into one outgoing run.
pub fn merge_batches(batches: Vec<Vec<Packet>>) -> (r: Vec<Packet>)
    ensures
        r@ == batch_views(batches@).flatten(),
{
    let ghost orig = batch_views(batches@);
    let mut rest = batches;
    let mut out: Vec<Packet> = Vec::new();
    while rest.len() > 0
        invariant
            out@ + batch_views(rest@).flatten() == orig.flatten(),
        decreases rest@.len(),
    {
        let ghost pre = rest@;
        let ghost out_pre = out@;
        let mut first = rest.remove(0);
        let ghost f = first@;
        out.append(&mut first);
        proof {
            let bvpre = batch_views(pre);
            assert(rest@ =~= pre.drop_first());
            assert(bvpre.drop_first() =~= batch_views(rest@));
            assert(bvpre.flatten() == bvpre.first() + bvpre.drop_first().flatten());
            assert(bvpre.first() == f);
            assert(out@ + batch_views(rest@).flatten() =~= out_pre + bvpre.flatten());
        }
    }
    proof {
        assert(batch_views(rest@) =~= Seq::<Seq<Packet>>::empty());
        assert(batch_views(rest@).flatten() == Seq::<Packet>::empty());
        assert(out@ =~= orig.flatten());
    }
    out
}

/// How many slots of a round have been filled.
pub closed spec fn some_count(s: Seq<Option<Vec<Packet>>>) -> int
    decreases s.len(),
{
    if s.len() == 0 {
        0
    } else {
        some_count(s.drop_last()) + (if s.last() is Some {
            1int
        } else {
            0int
        })
    }
}

proof fn lemma_some_count_bound(s: Seq<Option<Vec<Packet>>>)
    ensures
        0 <= some_count(s) <= s.len(),
    decreases s.len(),
{
    if s.len() > 0 {
        lemma_some_count_bound(s.drop_last());
    }
}

proof fn lemma_some_count_update(s: Seq<Option<Vec<Packet>>>, i: int, v: Vec<Packet>)
    requires
        0 <= i < s.len(),
        s[i] is None,
    ensures
        some_count(s.update(i, Some(v))) == some_count(s) + 1,
    decreases s.len(),
{
    let u = s.update(i, Some(v));
    if i == s.len() - 1 {
        assert(u.drop_last() =~= s.drop_last());
    } else {
        assert(u.drop_last() =~= s.drop_last().update(i, Some(v)));
        lemma_some_count_update(s.drop_last(), i, v);
        assert(u.last() == s.last());
    }
}

proof fn lemma_some_count_full(s: Seq<Option<Vec<Packet>>>)
    requires
        some_count(s) == s.len(),
    ensures
        forall|i: int| 0 <= i < s.len() ==> s[i] is Some,
    decreases s.len(),
{
    if s.len() > 0 {
        lemma_some_count_bound(s.drop_last());
        lemma_some_count_full(s.drop_last());
        assert forall|i: int| 0 <= i < s.len() implies s[i] is Some by {
            if i < s.len() - 1 {
                assert(s[i] == s.drop_last()[i]);
            }
        }
    }
}

/// The tick-synchronized session of the agent runtime: the senders to the
/// workers' inbound channels in spawn order, the shared collection channel,
/// and the routing caches of the steady-state loop. The ghost delivery log
/// records one entry per broadcast; each broadcast sends one copy to every
/// worker, in spawn order.
pub struct AgentSession {
    senders: Vec<kanal::Sender<Packet>>,
    collector: kanal::Receiver<(usize, Vec<Packet>)>,
    pending_tick: Option<Packet>,
    pending_prediction: Option<Packet>,
    closed: bool,
    delivered: Ghost<Seq<PacketView>>,
}

impl AgentSession {
    /// The routing state this session is in.
    pub closed spec fn model(&self) -> RouteState {
        RouteState {
            pending_tick: match self.pending_tick {
                Some(p) => Some(p@),
                None => None,
            },
            pending_prediction: match self.pending_prediction {
                Some(p) => Some(p@),
                None => None,
            },
            closed: self.closed,
        }
    }

    /// The chronological sequence of broadcasts this session has performed.
    pub closed spec fn delivered_log(&self) -> Seq<PacketView> {
        self.delivered@
    }

    /// How many workers this session fans out to.
    pub closed spec fn spec_num_workers(&self) -> int {
        self.senders@.len() as int
    }

    /// The number of workers, one per controllable.
    pub fn num_workers(&self) -> (r: usize)
        ensures
            r as int == self.spec_num_workers(),
    {
        self.senders.len()
    }

    /// Whether the close sentinel has been seen and broadcast.
    pub fn is_closed(&self) -> (r: bool)
        ensures
            r == self.model().closed,
    {
        self.closed
    }

    /// Whether a tick snapshot is cached for the next round.
    pub fn has_pending_tick(&self) -> (r: bool)
        ensures
            r == (self.model().pending_tick is Some),
    {
        self.pending_tick.is_some()
    }

    /// Creates the session and one link per worker. Worker `i`'s link
    /// carries slot number `i`; the session keeps the matching sender at
    /// position `i`, so broadcasts reach workers in spawn order. The
    /// collection channel's send side lives only in the links: when every
    /// worker is gone, collection fails rather than blocking forever.
    pub fn new(num_workers: usize) -> (r: (AgentSession, Vec<WorkerLink>))
        ensures
            r.0.spec_num_workers() == num_workers as int,
            r.0.model() == initial_route_state(),
            r.0.delivered_log() == Seq::<PacketView>::empty(),
            r.1@.len() == num_workers as int,
            forall|k: int| 0 <= k < num_workers as int ==> (#[trigger] r.1@[k]).slot() == k,
    {
        let (collector_tx, collector_rx) = kanal::unbounded::<(usize, Vec<Packet>)>();
        let mut senders: Vec<kanal::Sender<Packet>> = Vec::new();
        let mut links: Vec<WorkerLink> = Vec::new();
        let mut i: usize = 0;
        while i < num_workers
            invariant
                i <= num_workers,
                senders@.len() == i as int,
                links@.len() == i as int,
                forall|k: int| 0 <= k < i as int ==> (#[trigger] links@[k]).slot() == k,
            decreases num_workers - i,
        {
            let (tx, rx) = kanal::unbounded::<Packet>();
            senders.push(tx);
            links.push(WorkerLink { index: i, incoming: rx, outgoing: collector_tx.clone() });
            i = i + 1;
        }
        let session = AgentSession {
            senders,
            collector: collector_rx,
            pending_tick: None,
            pending_prediction: None,
            closed: false,
            delivered: Ghost(Seq::empty()),
        };
        (session, links)
    }

    /// Sends one copy of `p` to every worker, in spawn order, and logs the
    /// broadcast. Fails as a worker failure when any inbound channel is
    /// closed.
    fn broadcast(&mut self, p: &Packet) -> (r: Result<(), AgentError>)
        ensures
            final(self).spec_num_workers() == old(self).spec_num_workers(),
            match r {
                Ok(()) => final(self).model() == old(self).model() && final(self).delivered_log()
                    == old(self).delivered_log().push(p@),
                Err(e) => e == AgentError::AgentPanic,
            },
    {
        let n = self.senders.len();
        let mut i: usize = 0;
        while i < n
            invariant
                i <= n,
                n as int == self.spec_num_workers(),
                self.model() == old(self).model(),
                self.delivered_log() == old(self).delivered_log(),
            decreases n - i,
        {
            let copy = clone_packet(p);
            match self.senders[i].send(copy) {
                Ok(()) => (),
                Err(_) => {
                    return Err(AgentError::AgentPanic);
                },
            }
            i = i + 1;
        }
        proof {
        }
        self.delivered = Ghost(self.delivered@.push(p@));
        Ok(())
    }

    /// Classifies and routes one inbound packet, per `route_pour`: the
    /// close sentinel and comms packets are broadcast at once, a prediction
    /// replaces the cached prediction, a tick snapshot replaces the cached
    /// tick. Caching cannot fail; only a broadcast can, when a worker's
    /// channel is closed under it. A packet the server never sends in the
    /// steady state is a protocol violation: callers keep it out and treat
    /// it as fatal.
    pub fn pour(&mut self, p: Packet) -> (r: Result<(), AgentError>)
        requires
            is_inbound(p@),
            !old(self).model().closed,
        ensures
            final(self).spec_num_workers() == old(self).spec_num_workers(),
            p@.0 == 1 || p@.0 == 10 ==> r is Ok,
            match r {
                Ok(()) => final(self).model() == route_pour(old(self).model(), p@).0 && final(
                    self).delivered_log() == old(self).delivered_log() + route_pour(
                    old(self).model(), p@).1,
                Err(e) => e == AgentError::AgentPanic,
            },
    {
        let tag = p.data_type();
        if tag == 0 {
            match self.broadcast(&p) {
                Ok(()) => (),
                Err(e) => {
                    return Err(e);
                },
            }
            self.closed = true;
            proof {
                assert(self.delivered_log() =~= old(self).delivered_log() + seq![p@]);
            }
            Ok(())
        } else if tag == 9 {
            match self.broadcast(&p) {
                Ok(()) => (),
                Err(e) => {
                    return Err(e);
                },
            }
            proof {
                assert(self.delivered_log() =~= old(self).delivered_log() + seq![p@]);
            }
            Ok(())
        } else if tag == 10 {
            self.pending_prediction = Some(p);
            proof {
                assert(self.delivered_log() =~= old(self).delivered_log()
                    + Seq::<PacketView>::empty());
            }
            Ok(())
        } else {
            self.pending_tick = Some(p);
            proof {
                assert(self.delivered_log() =~= old(self).delivered_log()
                    + Seq::<PacketView>::empty());
            }
            Ok(())
        }
    }

    /// Blocks until every worker has contributed exactly one batch, each
    /// into its own slot, and returns the slots in worker-spawn order —
    /// the fixed-slot collection of a tick round. Fails as a worker
    /// failure when the shared channel closes or a worker breaks the
    /// one-batch-per-round discipline; with no workers there is nothing
    /// to wait for and the round trivially succeeds.
    pub fn collect_round(&mut self) -> (r: Result<Vec<Vec<Packet>>, AgentError>)
        ensures
            final(self).spec_num_workers() == old(self).spec_num_workers(),
            final(self).model() == old(self).model(),
            final(self).delivered_log() == old(self).delivered_log(),
            old(self).spec_num_workers() == 0 ==> r is Ok,
            match r {
                Ok(slots) => slots@.len() == old(self).spec_num_workers(),
                Err(e) => e == AgentError::AgentPanic,
            },
    {
        let n = self.senders.len();
        let mut slots: Vec<Option<Vec<Packet>>> = Vec::new();
        let mut k: usize = 0;
        while k < n
            invariant
                k <= n,
                slots@.len() == k as int,
                forall|j: int| 0 <= j < k as int ==> slots@[j] is None,
            decreases n - k,
        {
            slots.push(None);
            k = k + 1;
        }
        proof {
            lemma_some_count_none(slots@);
        }
        let mut filled: usize = 0;
        while filled < n
            invariant
                filled <= n,
                slots@.len() == n as int,
                some_count(slots@) == filled as int,
                n as int == self.spec_num_workers(),
                self.model() == old(self).model(),
                self.delivered_log() == old(self).delivered_log(),
            decreases n - filled,
        {
            let (idx, batch) = match self.collector.recv() {
                Ok(m) => m,
                Err(_) => {
                    return Err(AgentError::AgentPanic);
                },
            };
            if idx >= n {
                return Err(AgentError::AgentPanic);
            }
            let already = slots[idx].is_some();
            if already {
                return Err(AgentError::AgentPanic);
            }
            proof {
                lemma_some_count_update(slots@, idx as int, batch);
            }
            slots.set(idx, Some(batch));
            filled = filled + 1;
        }
        proof {
            lemma_some_count_full(slots@);
        }
        let mut out: Vec<Vec<Packet>> = Vec::new();
        let mut j: usize = 0;
        let mut rest = slots;
        while j < n
            invariant
                j <= n,
                out@.len() == j as int,
                rest@.len() == n as int - j as int,
                forall|q: int| 0 <= q < rest@.len() ==> rest@[q] is Some,
            decreases n - j,
        {
            let slot = rest.remove(0);
            match slot {
                Some(b) => {
                    out.push(b);
                },
                None => {
                    proof {
                        assert(false);
                    }
                },
            }
            j = j + 1;
        }
        Ok(out)
    }

    /// One full tick round, per `route_tick`: while no tick snapshot is
    /// cached, nothing happens and the round cannot fail; otherwise the
    /// cached prediction, if any, is broadcast first and cleared, then the
    /// tick is broadcast and cleared, one batch is collected from every
    /// worker into its slot, and the slots are concatenated in worker
    /// order and encoded as one contiguous frame run for one combined
    /// write.
    pub fn tick_round(&mut self) -> (r: Result<Option<Vec<u8>>, AgentError>)
        ensures
            final(self).spec_num_workers() == old(self).spec_num_workers(),
            old(self).model().pending_tick is None ==> (r matches Ok(opt) && opt is None),
            match r {
                Ok(opt) => {
                    &&& final(self).model() == route_tick(old(self).model()).0
                    &&& final(self).delivered_log() == old(self).delivered_log() + route_tick(
                        old(self).model()).1
                    &&& match opt {
                        Some(bytes) => old(self).model().pending_tick is Some && (exists|
                            batches: Seq<Seq<Packet>>,
                        |
                            batches.len() == old(self).spec_num_workers() && bytes@ == spec_frames(
                                #[trigger] batches.flatten())),
                        None => old(self).model().pending_tick is None,
                    }
                },
                Err(e) => e == AgentError::AgentPanic || e == AgentError::PacketParseError(
                    RLBotError::PayloadTooLarge),
            },
    {
        if self.pending_tick.is_none() {
            proof {
                assert(self.delivered_log() =~= old(self).delivered_log()
                    + route_tick(old(self).model()).1);
            }
            return Ok(None);
        }
        let pred = self.pending_prediction.take();
        match pred {
            Some(pr) => {
                match self.broadcast(&pr) {
                    Ok(()) => (),
                    Err(e) => {
                        return Err(e);
                    },
                }
            },
            None => (),
        }
        let tick = self.pending_tick.take().unwrap();
        match self.broadcast(&tick) {
            Ok(()) => (),
            Err(e) => {
                return Err(e);
            },
        }
        proof {
            assert(self.delivered_log() =~= old(self).delivered_log() + route_tick(
                old(self).model()).1);
        }
        let slots = match self.collect_round() {
            Ok(s) => s,
            Err(e) => {
                return Err(e);
            },
        };
        let ghost witness = batch_views(slots@);
        let merged = merge_batches(slots);
        match encode_batch(&merged) {
            Ok(bytes) => {
                proof {
                    assert(witness.len() == old(self).spec_num_workers());
                    assert(bytes@ == spec_frames(witness.flatten()));
                }
                Ok(Some(bytes))
            },
            Err(_) => Err(AgentError::PacketParseError(RLBotError::PayloadTooLarge)),
        }
    }

    /// The ready barrier: collects the construction batch of every worker
    /// into its slot, appends the ready sentinel, and encodes everything
    /// as one contiguous frame run — so every worker's setup output
    /// reaches the server strictly before the ready signal, in one write.
    /// With no workers it cannot fail: the run is the ready sentinel
    /// alone, which always fits a frame.
    pub fn ready_batch(&mut self) -> (r: Result<Vec<u8>, AgentError>)
        ensures
            final(self).spec_num_workers() == old(self).spec_num_workers(),
            final(self).model() == old(self).model(),
            final(self).delivered_log() == old(self).delivered_log(),
            old(self).spec_num_workers() == 0 ==> r is Ok,
            match r {
                Ok(bytes) => exists|batches: Seq<Seq<Packet>>|
                    batches.len() == old(self).spec_num_workers() && bytes@ == spec_frames(
                        (#[trigger] batches.flatten()).push(Packet::InitComplete)),
                Err(e) => e == AgentError::AgentPanic || e == AgentError::PacketParseError(
                    RLBotError::PayloadTooLarge),
            },
    {
        let slots = match self.collect_round() {
            Ok(s) => s,
            Err(e) => {
                return Err(e);
            },
        };
        let ghost witness = batch_views(slots@);
        let mut merged = merge_batches(slots);
        merged.push(Packet::InitComplete);
        match encode_batch(&merged) {
            Ok(bytes) => {
                proof {
                    assert(witness.len() == old(self).spec_num_workers());
                    assert(merged@ == witness.flatten().push(Packet::InitComplete));
                }
                Ok(bytes)
            },
            Err(_) => Err(AgentError::PacketParseError(RLBotError::PayloadTooLarge)),
        }
    }
}

proof fn lemma_some_count_none(s: Seq<Option<Vec<Packet>>>)
    requires
        forall|j: int| 0 <= j < s.len() ==> s[j] is None,
    ensures
        some_count(s) == 0,
    decreases s.len(),
{
    if s.len() > 0 {
        lemma_some_count_none(s.drop_last());
    }
}

} // verus!
