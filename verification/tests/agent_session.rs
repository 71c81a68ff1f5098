use std::sync::Arc;
use rlbot::{Agent, AgentError, AgentSession, AgentWorker, Packet, PacketQueue, WorkerLink};
use rlbot::records::{BallPrediction, ControllableInfo, FieldInfo, GamePacket, MatchComm,
    MatchConfiguration, PlayerInput};
use rlbot::route::packet_is_inbound;
use rlbot::wire::parse_header;

fn decode_all(mut bytes: &[u8]) -> Vec<Packet> {
    let mut out = Vec::new();
    while !bytes.is_empty() {
        let (tag, len) = parse_header(bytes[0], bytes[1], bytes[2], bytes[3]);
        out.push(Packet::from_payload(tag, &bytes[4..4 + len as usize]).unwrap());
        bytes = &bytes[4 + len as usize..];
    }
    out
}

fn tick(n: u8) -> Packet {
    Packet::GamePacket(GamePacket { payload: vec![n] })
}

fn prediction(n: u8) -> Packet {
    Packet::BallPrediction(BallPrediction { payload: vec![n] })
}

fn input(n: u8) -> Packet {
    Packet::PlayerInput(PlayerInput { payload: vec![n] })
}

#[test]
fn tick_round_collects_one_batch_per_worker_in_slot_order() {
    let (mut session, links) = AgentSession::new(3);
    assert_eq!(session.num_workers(), 3);

    session.pour(tick(42)).unwrap();
    // workers answer out of spawn order, with one empty batch
    links[2].outgoing.send((2, vec![input(2)])).unwrap();
    links[0].outgoing.send((0, vec![input(0)])).unwrap();
    links[1].outgoing.send((1, vec![])).unwrap();

    let bytes = session.tick_round().unwrap().unwrap();
    let sent = decode_all(&bytes);
    // exactly the three batches, concatenated in stable worker order
    assert_eq!(sent, vec![input(0), input(2)]);

    // every worker received the tick exactly once
    for link in &links {
        assert_eq!(link.incoming.recv().unwrap(), tick(42));
        assert!(link.incoming.try_recv().unwrap().is_none());
    }
}

#[test]
fn tick_round_without_pending_tick_does_nothing() {
    let (mut session, links) = AgentSession::new(2);
    assert!(session.tick_round().unwrap().is_none());
    session.pour(prediction(9)).unwrap();
    // a prediction alone does not start a round
    assert!(session.tick_round().unwrap().is_none());
    for link in &links {
        assert!(link.incoming.try_recv().unwrap().is_none());
    }
}

#[test]
fn prediction_coalescing_delivers_only_the_second() {
    let (mut session, links) = AgentSession::new(2);
    session.pour(prediction(1)).unwrap();
    session.pour(prediction(2)).unwrap();
    session.pour(tick(3)).unwrap();
    links[0].outgoing.send((0, vec![])).unwrap();
    links[1].outgoing.send((1, vec![])).unwrap();
    session.tick_round().unwrap().unwrap();
    for link in &links {
        assert_eq!(link.incoming.recv().unwrap(), prediction(2));
        assert_eq!(link.incoming.recv().unwrap(), tick(3));
        assert!(link.incoming.try_recv().unwrap().is_none());
    }
}

#[test]
fn prediction_is_never_delivered_twice() {
    let (mut session, links) = AgentSession::new(1);
    session.pour(prediction(5)).unwrap();
    session.pour(tick(6)).unwrap();
    links[0].outgoing.send((0, vec![])).unwrap();
    session.tick_round().unwrap().unwrap();
    assert_eq!(links[0].incoming.recv().unwrap(), prediction(5));
    assert_eq!(links[0].incoming.recv().unwrap(), tick(6));
    // the next round has no prediction to deliver
    session.pour(tick(7)).unwrap();
    links[0].outgoing.send((0, vec![])).unwrap();
    session.tick_round().unwrap().unwrap();
    assert_eq!(links[0].incoming.recv().unwrap(), tick(7));
    assert!(links[0].incoming.try_recv().unwrap().is_none());
}

#[test]
fn close_sentinel_is_broadcast_to_every_worker_exactly_once() {
    let (mut session, links) = AgentSession::new(3);
    assert!(!session.is_closed());
    session.pour(Packet::Close).unwrap();
    assert!(session.is_closed());
    for link in &links {
        assert_eq!(link.incoming.recv().unwrap(), Packet::Close);
        assert!(link.incoming.try_recv().unwrap().is_none());
    }
}

#[test]
fn comm_packets_are_broadcast_at_once() {
    let (mut session, links) = AgentSession::new(2);
    let comm = Packet::MatchComm(MatchComm { payload: vec![1, 2] });
    session.pour(comm.clone()).unwrap();
    for link in &links {
        assert_eq!(link.incoming.recv().unwrap(), comm);
    }
}

#[test]
fn ready_batch_appends_init_complete_after_every_setup_batch() {
    let (mut session, links) = AgentSession::new(2);
    links[1].outgoing.send((1, vec![input(11)])).unwrap();
    links[0].outgoing.send((0, vec![input(10)])).unwrap();
    let bytes = session.ready_batch().unwrap();
    let sent = decode_all(&bytes);
    assert_eq!(sent, vec![input(10), input(11), Packet::InitComplete]);
}

#[test]
fn worker_failure_is_detected_when_channels_close() {
    let (mut session, links) = AgentSession::new(1);
    drop(links);
    let comm = Packet::MatchComm(MatchComm { payload: vec![] });
    assert_eq!(session.pour(comm).unwrap_err(), AgentError::AgentPanic);
    let (mut session, links) = AgentSession::new(1);
    drop(links);
    assert_eq!(session.ready_batch().unwrap_err(), AgentError::AgentPanic);
}

#[test]
fn duplicate_slot_is_a_worker_failure() {
    let (mut session, links) = AgentSession::new(2);
    links[0].outgoing.send((0, vec![])).unwrap();
    links[0].outgoing.send((0, vec![])).unwrap();
    assert_eq!(session.ready_batch().unwrap_err(), AgentError::AgentPanic);
    drop(links);
}

#[test]
fn out_of_range_slot_is_a_worker_failure() {
    let (mut session, links) = AgentSession::new(1);
    links[0].outgoing.send((7, vec![])).unwrap();
    assert_eq!(session.ready_batch().unwrap_err(), AgentError::AgentPanic);
}

#[test]
fn inbound_classification_matches_the_steady_state_set() {
    assert!(packet_is_inbound(&Packet::Close));
    assert!(packet_is_inbound(&tick(0)));
    assert!(packet_is_inbound(&prediction(0)));
    assert!(packet_is_inbound(&Packet::MatchComm(MatchComm { payload: vec![] })));
    assert!(!packet_is_inbound(&input(0)));
    assert!(!packet_is_inbound(&Packet::InitComplete));
}

struct EchoAgent {
    index: u32,
    comms_seen: u32,
    predictions_seen: u32,
}

impl Agent for EchoAgent {
    fn new(
        _team: u32,
        controllable_info: ControllableInfo,
        _match_config: Arc<MatchConfiguration>,
        _field_info: Arc<FieldInfo>,
        packet_queue: &mut PacketQueue,
    ) -> Self {
        packet_queue.push(input(200));
        EchoAgent { index: controllable_info.index, comms_seen: 0, predictions_seen: 0 }
    }

    fn tick(&mut self, game_packet: &GamePacket, packet_queue: &mut PacketQueue) {
        packet_queue.push(input(game_packet.payload[0] + self.index as u8));
    }

    fn on_match_comm(&mut self, _match_comm: &MatchComm, _packet_queue: &mut PacketQueue) {
        self.comms_seen += 1;
    }

    fn on_ball_prediction(&mut self, _ball_prediction: &BallPrediction) {
        self.predictions_seen += 1;
    }
}

fn test_link() -> (WorkerLink, kanal::Receiver<(usize, Vec<Packet>)>, kanal::Sender<Packet>) {
    let (in_tx, in_rx) = kanal::unbounded();
    let (out_tx, out_rx) = kanal::unbounded();
    (WorkerLink { index: 0, incoming: in_rx, outgoing: out_tx }, out_rx, in_tx)
}

#[test]
fn worker_reports_construction_batch_then_answers_each_tick_once() {
    let (link, out_rx, in_tx) = test_link();
    let cfg = Arc::new(MatchConfiguration { payload: vec![] });
    let fi = Arc::new(FieldInfo { payload: vec![] });
    let mut worker = AgentWorker::<EchoAgent>::new(
        link,
        0,
        ControllableInfo { index: 1, spawn_id: 5 },
        cfg,
        fi,
    )
    .unwrap();
    // the construction batch, sent before any packet arrives
    assert_eq!(out_rx.recv().unwrap(), (0, vec![input(200)]));
    // comms and predictions are handled without an answering batch
    in_tx.send(Packet::MatchComm(MatchComm { payload: vec![] })).unwrap();
    assert!(worker.step());
    in_tx.send(prediction(9)).unwrap();
    assert!(worker.step());
    assert!(out_rx.try_recv().unwrap().is_none());
    // a tick is answered with exactly one batch
    in_tx.send(tick(7)).unwrap();
    assert!(worker.step());
    assert_eq!(out_rx.recv().unwrap(), (0, vec![input(8)]));
    // the close sentinel ends the worker
    in_tx.send(Packet::Close).unwrap();
    assert!(!worker.step());
}

#[test]
fn worker_stops_when_its_channel_closes() {
    let (link, out_rx, in_tx) = test_link();
    let cfg = Arc::new(MatchConfiguration { payload: vec![] });
    let fi = Arc::new(FieldInfo { payload: vec![] });
    let mut worker = AgentWorker::<EchoAgent>::new(
        link,
        0,
        ControllableInfo { index: 0, spawn_id: 1 },
        cfg,
        fi,
    )
    .unwrap();
    assert_eq!(out_rx.recv().unwrap().0, 0);
    drop(in_tx);
    assert!(!worker.step());
}
