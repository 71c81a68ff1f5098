use rlbot::{Hivemind, HivemindSession, Packet, PacketQueue, Script, ScriptSession};
use rlbot::records::{BallPrediction, FieldInfo, GamePacket, MatchComm, MatchConfiguration,
    StartingInfo};
use rlbot::{ControllableInfo, ControllableTeamInfo};
use rlbot::records::{DesiredGameState, PlayerInput};
use rlbot::wire::parse_header;

fn decode_all(mut bytes: &[u8]) -> Vec<Packet> {
    let mut out = Vec::new();
    while !bytes.is_empty() {
        let (tag, len) = parse_header(bytes[0], bytes[1], bytes[2], bytes[3]);
        out.push(Packet::from_payload(tag, &bytes[4..4 + len as usize]).unwrap());
        bytes = &bytes[4 + len as usize..];
    }
    out
}

fn starting_info() -> StartingInfo {
    StartingInfo {
        controllable_team_info: ControllableTeamInfo {
            team: 0,
            controllables: vec![
                ControllableInfo { index: 0, spawn_id: 1 },
                ControllableInfo { index: 1, spawn_id: 2 },
            ],
        },
        match_configuration: MatchConfiguration { payload: vec![1] },
        field_info: FieldInfo { payload: vec![2] },
    }
}

struct TeamBot {
    owned: usize,
    comms_seen: u32,
    predictions_seen: u32,
}

impl Hivemind for TeamBot {
    fn new(
        controllable_team_info: ControllableTeamInfo,
        _match_config: MatchConfiguration,
        _field_info: FieldInfo,
        packet_queue: &mut PacketQueue,
    ) -> Self {
        packet_queue.push(Packet::PlayerInput(PlayerInput { payload: vec![100] }));
        TeamBot {
            owned: controllable_team_info.controllables.len(),
            comms_seen: 0,
            predictions_seen: 0,
        }
    }

    fn tick(&mut self, game_packet: GamePacket, packet_queue: &mut PacketQueue) {
        let mut n: u8 = game_packet.payload[0];
        n += self.predictions_seen as u8;
        let mut i: usize = 0;
        while i < self.owned {
            packet_queue.push(Packet::PlayerInput(PlayerInput { payload: vec![n, i as u8] }));
            i += 1;
        }
    }

    fn on_match_comm(&mut self, _match_comm: MatchComm, packet_queue: &mut PacketQueue) {
        self.comms_seen += 1;
        packet_queue.push(Packet::PlayerInput(PlayerInput { payload: vec![201] }));
    }

    fn on_ball_prediction(&mut self, _ball_prediction: BallPrediction) {
        self.predictions_seen += 1;
    }
}

#[test]
fn hivemind_first_write_ends_with_ready_sentinel() {
    let (_session, first) = HivemindSession::<TeamBot>::new(starting_info()).unwrap();
    let sent = decode_all(&first);
    assert_eq!(
        sent,
        vec![
            Packet::PlayerInput(PlayerInput { payload: vec![100] }),
            Packet::InitComplete,
        ]
    );
}

#[test]
fn hivemind_tick_round_delivers_prediction_then_tick_once() {
    let (mut session, _first) = HivemindSession::<TeamBot>::new(starting_info()).unwrap();
    assert!(session.tick_round().unwrap().is_none());
    session.absorb(Packet::BallPrediction(BallPrediction { payload: vec![1] }));
    session.absorb(Packet::BallPrediction(BallPrediction { payload: vec![2] }));
    session.absorb(Packet::GamePacket(GamePacket { payload: vec![5] }));
    let bytes = session.tick_round().unwrap().unwrap();
    let sent = decode_all(&bytes);
    // two predictions arrived, only the second was delivered, once: the
    // bot adds the number of predictions it saw to the tick number
    assert_eq!(
        sent,
        vec![
            Packet::PlayerInput(PlayerInput { payload: vec![6, 0] }),
            Packet::PlayerInput(PlayerInput { payload: vec![6, 1] }),
        ]
    );
    // the next round carries no stale prediction
    session.absorb(Packet::GamePacket(GamePacket { payload: vec![9] }));
    let bytes = session.tick_round().unwrap().unwrap();
    let sent = decode_all(&bytes);
    assert_eq!(sent[0], Packet::PlayerInput(PlayerInput { payload: vec![10, 0] }));
}

#[test]
fn hivemind_comms_are_handled_at_once_and_sent_with_the_next_tick() {
    let (mut session, _first) = HivemindSession::<TeamBot>::new(starting_info()).unwrap();
    session.absorb(Packet::MatchComm(MatchComm { payload: vec![] }));
    session.absorb(Packet::GamePacket(GamePacket { payload: vec![0] }));
    let bytes = session.tick_round().unwrap().unwrap();
    let sent = decode_all(&bytes);
    assert_eq!(sent[0], Packet::PlayerInput(PlayerInput { payload: vec![201] }));
    assert_eq!(sent.len(), 3);
}

#[test]
fn hivemind_close_ends_the_session() {
    let (mut session, _first) = HivemindSession::<TeamBot>::new(starting_info()).unwrap();
    assert!(!session.is_closed());
    session.absorb(Packet::Close);
    assert!(session.is_closed());
}

struct WorldWatcher {
    id_len: usize,
}

impl Script for WorldWatcher {
    fn new(
        agent_id: String,
        _match_config: MatchConfiguration,
        _field_info: FieldInfo,
        _packet_queue: &mut PacketQueue,
    ) -> Self {
        WorldWatcher { id_len: agent_id.len() }
    }

    fn on_packet(&mut self, _game_packet: GamePacket, packet_queue: &mut PacketQueue) {
        packet_queue.push(Packet::DesiredGameState(DesiredGameState {
            payload: vec![self.id_len as u8],
        }));
    }

    fn on_match_comm(&mut self, _match_comm: MatchComm, _packet_queue: &mut PacketQueue) {}

    fn on_ball_prediction(&mut self, _ball_prediction: BallPrediction) {}
}

#[test]
fn script_observes_ticks_and_issues_world_mutations_only() {
    let (mut session, first) = ScriptSession::<WorldWatcher>::new(
        String::from("abc"),
        starting_info(),
    )
    .unwrap();
    assert_eq!(decode_all(&first), vec![Packet::InitComplete]);
    session.absorb(Packet::GamePacket(GamePacket { payload: vec![1] }));
    let bytes = session.tick_round().unwrap().unwrap();
    assert_eq!(
        decode_all(&bytes),
        vec![Packet::DesiredGameState(DesiredGameState { payload: vec![3] })]
    );
    session.absorb(Packet::Close);
    assert!(session.is_closed());
}

struct FloodBot;

impl Hivemind for FloodBot {
    fn new(
        _controllable_team_info: ControllableTeamInfo,
        _match_config: MatchConfiguration,
        _field_info: FieldInfo,
        _packet_queue: &mut PacketQueue,
    ) -> Self {
        FloodBot
    }

    fn tick(&mut self, _game_packet: GamePacket, packet_queue: &mut PacketQueue) {
        packet_queue.push(Packet::PlayerInput(PlayerInput { payload: vec![0u8; 70000] }));
    }

    fn on_match_comm(&mut self, _match_comm: MatchComm, _packet_queue: &mut PacketQueue) {}

    fn on_ball_prediction(&mut self, _ball_prediction: BallPrediction) {}
}

#[test]
fn oversized_bot_output_fails_the_round_before_any_write() {
    let (mut session, _first) = HivemindSession::<FloodBot>::new(starting_info()).unwrap();
    session.absorb(Packet::GamePacket(GamePacket { payload: vec![0] }));
    let r = session.tick_round();
    assert!(matches!(
        r,
        Err(rlbot::HivemindError::PacketParseError(rlbot::RLBotError::PayloadTooLarge))
    ));
}
