//! One full match connection, driven from the server's byte stream to the
//! client's combined writes: startup records in arbitrary order, a ready
//! barrier, one tick round, and a clean shutdown on the close sentinel.

use rlbot::{AgentSession, ConnectionSettings, ControllableInfo, ControllableTeamInfo, Packet,
    StartingInfoCollector};
use rlbot::records::{FieldInfo, GamePacket, MatchConfiguration, PlayerInput};
use rlbot::startup::handshake_frame;
use rlbot::wire::{encode_batch, parse_header};

fn decode_all(mut bytes: &[u8]) -> Vec<Packet> {
    let mut out = Vec::new();
    while !bytes.is_empty() {
        let (tag, len) = parse_header(bytes[0], bytes[1], bytes[2], bytes[3]);
        out.push(Packet::from_payload(tag, &bytes[4..4 + len as usize]).unwrap());
        bytes = &bytes[4 + len as usize..];
    }
    out
}

fn input(n: u8) -> Packet {
    Packet::PlayerInput(PlayerInput { payload: vec![n] })
}

#[test]
fn full_match_round_with_two_controllables() {
    // the client's first frame: its identity and capabilities
    let hs = handshake_frame(&ConnectionSettings {
        agent_id: String::from("sample/two_bots"),
        wants_ball_predictions: true,
        wants_comms: true,
        close_between_matches: true,
    })
    .unwrap();
    match decode_all(&hs).as_slice() {
        [Packet::ConnectionSettings(cs)] => {
            assert_eq!(cs.agent_id, "sample/two_bots");
            assert!(cs.close_between_matches);
        },
        other => panic!("unexpected handshake frames: {other:?}"),
    }

    // the server's stream: the startup records in arbitrary order, one
    // tick snapshot, then the close sentinel
    let server_stream = encode_batch(&vec![
        Packet::MatchConfiguration(MatchConfiguration { payload: vec![7] }),
        Packet::ControllableTeamInfo(ControllableTeamInfo {
            team: 0,
            controllables: vec![
                ControllableInfo { index: 0, spawn_id: 10 },
                ControllableInfo { index: 1, spawn_id: 11 },
            ],
        }),
        Packet::FieldInfo(FieldInfo { payload: vec![8] }),
        Packet::GamePacket(GamePacket { payload: vec![42] }),
        Packet::Close,
    ])
    .unwrap();
    let mut incoming = decode_all(&server_stream).into_iter();

    // handshake: accumulate until all three startup records are seen
    let mut collector = StartingInfoCollector::new();
    while !collector.complete() {
        collector.offer(incoming.next().unwrap());
    }
    let info = collector.finish().unwrap();
    let controllables = &info.controllable_team_info.controllables;
    assert_eq!(
        controllables,
        &vec![
            ControllableInfo { index: 0, spawn_id: 10 },
            ControllableInfo { index: 1, spawn_id: 11 },
        ]
    );

    // spawn: one worker per controllable (the test plays both workers)
    let (mut session, links) = AgentSession::new(controllables.len());

    // ready barrier: both construction batches, then the ready sentinel,
    // as one combined write
    links[0].outgoing.send((0, vec![input(100)])).unwrap();
    links[1].outgoing.send((1, vec![input(101)])).unwrap();
    let first_write = session.ready_batch().unwrap();
    assert_eq!(
        decode_all(&first_write),
        vec![input(100), input(101), Packet::InitComplete]
    );

    // one tick round: both responses as one combined write
    let tick = incoming.next().unwrap();
    assert!(rlbot::route::packet_is_inbound(&tick));
    session.pour(tick.clone()).unwrap();
    links[0].outgoing.send((0, vec![input(0)])).unwrap();
    links[1].outgoing.send((1, vec![input(1)])).unwrap();
    let second_write = session.tick_round().unwrap().unwrap();
    assert_eq!(decode_all(&second_write), vec![input(0), input(1)]);

    // shutdown: the close sentinel reaches every worker exactly once
    let close = incoming.next().unwrap();
    session.pour(close).unwrap();
    assert!(session.is_closed());
    for link in &links {
        assert_eq!(link.incoming.recv().unwrap(), tick);
        assert_eq!(link.incoming.recv().unwrap(), Packet::Close);
        assert!(link.incoming.try_recv().unwrap().is_none());
    }
    assert!(incoming.next().is_none());
}

#[test]
fn oversized_identity_is_rejected_before_the_handshake_write() {
    let r = handshake_frame(&ConnectionSettings {
        agent_id: "x".repeat(65503),
        wants_ball_predictions: false,
        wants_comms: false,
        close_between_matches: false,
    });
    assert!(matches!(r, Err(rlbot::RLBotError::PayloadTooLarge)));

    // the largest identity that still fits goes through
    let ok = handshake_frame(&ConnectionSettings {
        agent_id: "x".repeat(65502),
        wants_ball_predictions: false,
        wants_comms: false,
        close_between_matches: false,
    });
    assert_eq!(ok.unwrap().len(), 4 + 65535);
}
