//! The single-threaded hivemind runtime: one in-process bot owns all of a
//! team's controllables at once. Same classification and
//! prediction-then-tick ordering as the threaded runtime, but hooks are
//! invoked directly and the queue is drained right after each tick, with
//! no channels and nothing to join.

use vstd::prelude::*;
use crate::packet::{Packet, RLBotError};
use crate::queue::PacketQueue;
use crate::records::{BallPrediction, ControllableTeamInfo, FieldInfo, GamePacket, MatchComm,
    MatchConfiguration, StartingInfo};
use crate::route::{RouteState, PacketView, initial_route_state, is_inbound, route_pour,
    route_tick};
use crate::wire::{encode_batch, spec_frames};

verus! {

/// Why the hivemind runtime stopped.
#[derive(Debug, Clone, PartialEq)]
pub enum HivemindError {
    HivemindPanic,
    PacketParseError(RLBotError),
}

/// Decision logic for a whole team of controllables at once.
/// Implementations are supplied by the embedding application.
pub trait Hivemind: Sized {
    fn new(
        controllable_team_info: ControllableTeamInfo,
        match_config: MatchConfiguration,
        field_info: FieldInfo,
        packet_queue: &mut PacketQueue,
    ) -> Self;

    fn tick(&mut self, game_packet: GamePacket, packet_queue: &mut PacketQueue);

    fn on_match_comm(&mut self, match_comm: MatchComm, packet_queue: &mut PacketQueue);

    fn on_ball_prediction(&mut self, ball_prediction: BallPrediction);
}

/// The hivemind's steady-state session: the bot, its outgoing queue, and
/// the routing caches. The ghost delivery log records the packets handed
/// to the bot's hooks, in order; the close sentinel invokes no hook, it
/// only ends the loop.
pub struct HivemindSession<T: Hivemind> {
    bot: T,
    queue: PacketQueue,
    pending_tick: Option<GamePacket>,
    pending_prediction: Option<BallPrediction>,
    closed: bool,
    delivered: Ghost<Seq<PacketView>>,
}

impl<T: Hivemind> HivemindSession<T> {
    /// The routing state this session is in.
    pub closed spec fn model(&self) -> RouteState {
        RouteState {
            pending_tick: match self.pending_tick {
                Some(g) => Some((1u16, g.payload@)),
                None => None,
            },
            pending_prediction: match self.pending_prediction {
                Some(b) => Some((10u16, b.payload@)),
                None => None,
            },
            closed: self.closed,
        }
    }

    /// The packets queued for the next combined write.
    pub closed spec fn spec_queue(&self) -> Seq<Packet> {
        self.queue@
    }

    /// The chronological sequence of packets handed to the bot's hooks.
    pub closed spec fn delivered_log(&self) -> Seq<PacketView> {
        self.delivered@
    }

    /// Whether the close sentinel has been seen.
    pub fn is_closed(&self) -> (r: bool)
        ensures
            r == self.model().closed,
    {
        self.closed
    }

    /// Whether a tick snapshot is cached for the next round.
    pub fn has_pending_tick(&self) -> (r: bool)
        ensures
            r == (self.model().pending_tick is Some),
    {
        self.pending_tick.is_some()
    }

    /// Constructs the bot from the startup records (its constructor may
    /// already enqueue packets), appends the ready sentinel, and encodes
    /// everything as the first combined write — so the bot's setup output
    /// reaches the server strictly before the ready signal.
    pub fn new(info: StartingInfo) -> (r: Result<(HivemindSession<T>, Vec<u8>), HivemindError>)
        ensures
            match r {
                Ok(pair) => {
                    &&& pair.0.model() == initial_route_state()
                    &&& pair.0.delivered_log() == Seq::<PacketView>::empty()
                    &&& exists|setup: Seq<Packet>|
                        pair.1@ == spec_frames(#[trigger] setup.push(Packet::InitComplete))
                },
                Err(e) => e == HivemindError::PacketParseError(RLBotError::PayloadTooLarge),
            },
    {
        let mut queue = PacketQueue::default();
        let bot = T::new(
            info.controllable_team_info,
            info.match_configuration,
            info.field_info,
            &mut queue,
        );
        queue.push(Packet::InitComplete);
        let batch = queue.empty();
        let ghost setup = batch@.drop_last();
        match encode_batch(&batch) {
            Ok(bytes) => {
                proof {
                    assert(batch@ =~= setup.push(Packet::InitComplete));
                }
                Ok(
                    (
                        HivemindSession {
                            bot,
                            queue,
                            pending_tick: None,
                            pending_prediction: None,
                            closed: false,
                            delivered: Ghost(Seq::empty()),
                        },
                        bytes,
                    ),
                )
            },
            Err(_) => Err(HivemindError::PacketParseError(RLBotError::PayloadTooLarge)),
        }
    }

    /// Classifies one inbound packet, per `route_pour`: the close sentinel
    /// ends the loop without a hook, a comms packet goes to its hook at
    /// once, a prediction replaces the cached prediction, a tick snapshot
    /// replaces the cached tick. A packet the server never sends in the
    /// steady state is a protocol violation: callers keep it out and
    /// treat it as fatal.
    pub fn absorb(&mut self, p: Packet)
        requires
            is_inbound(p@),
            !old(self).model().closed,
        ensures
            final(self).model() == route_pour(old(self).model(), p@).0,
            final(self).delivered_log() == old(self).delivered_log() + (if p@.0 == 0 {
                Seq::<PacketView>::empty()
            } else {
                route_pour(old(self).model(), p@).1
            }),
    {
        let ghost pv = p@;
        match p {
            Packet::Close => {
                self.closed = true;
                proof {
                    assert(self.delivered_log() =~= old(self).delivered_log()
                        + Seq::<PacketView>::empty());
                }
            },
            Packet::MatchComm(x) => {
                self.bot.on_match_comm(x, &mut self.queue);
                self.delivered = Ghost(self.delivered@.push(pv));
                proof {
                    assert(self.delivered_log() =~= old(self).delivered_log() + seq![pv]);
                }
            },
            Packet::BallPrediction(x) => {
                self.pending_prediction = Some(x);
                proof {
                    assert(self.delivered_log() =~= old(self).delivered_log()
                        + Seq::<PacketView>::empty());
                }
            },
            Packet::GamePacket(x) => {
                self.pending_tick = Some(x);
                proof {
                    assert(self.delivered_log() =~= old(self).delivered_log()
                        + Seq::<PacketView>::empty());
                }
            },
            _ => {
                proof {
                    assert(false);
                }
            },
        }
    }

    /// One tick round, per `route_tick`: while no tick is cached, nothing
    /// happens and the round cannot fail; otherwise the cached
    /// prediction, if any, is handed to its hook first and cleared, then
    /// the tick is handed to the tick hook and cleared, and the drained
    /// queue is encoded as one contiguous frame run for one combined
    /// write.
    pub fn tick_round(&mut self) -> (r: Result<Option<Vec<u8>>, HivemindError>)
        ensures
            old(self).model().pending_tick is None ==> (r matches Ok(opt) && opt is None),
            match r {
                Ok(opt) => {
                    &&& final(self).model() == route_tick(old(self).model()).0
                    &&& final(self).delivered_log() == old(self).delivered_log() + route_tick(
                        old(self).model()).1
                    &&& match opt {
                        Some(_) => final(self).spec_queue() == Seq::<Packet>::empty(),
                        None => final(self).spec_queue() == old(self).spec_queue(),
                    }
                    &&& match opt {
                        Some(bytes) => old(self).model().pending_tick is Some && (exists|
                            outgoing: Seq<Packet>,
                        | bytes@ == #[trigger] spec_frames(outgoing)),
                        None => old(self).model().pending_tick is None,
                    }
                },
                Err(e) => e == HivemindError::PacketParseError(RLBotError::PayloadTooLarge),
            },
    {
        if self.pending_tick.is_none() {
            proof {
                assert(self.delivered_log() =~= old(self).delivered_log() + route_tick(
                    old(self).model()).1);
            }
            return Ok(None);
        }
        let pred = self.pending_prediction.take();
        match pred {
            Some(b) => {
                let ghost bv = (10u16, b.payload@);
                self.bot.on_ball_prediction(b);
                self.delivered = Ghost(self.delivered@.push(bv));
            },
            None => (),
        }
        let tick = self.pending_tick.take().unwrap();
        let ghost tv = (1u16, tick.payload@);
        self.bot.tick(tick, &mut self.queue);
        self.delivered = Ghost(self.delivered@.push(tv));
        proof {
            assert(self.delivered_log() =~= old(self).delivered_log() + route_tick(
                old(self).model()).1);
        }
        let batch = self.queue.empty();
        match encode_batch(&batch) {
            Ok(bytes) => Ok(Some(bytes)),
            Err(_) => Err(HivemindError::PacketParseError(RLBotError::PayloadTooLarge)),
        }
    }
}

} // verus!
