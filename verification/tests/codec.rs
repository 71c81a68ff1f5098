use rlbot::{ConnectionSettings, ControllableInfo, ControllableTeamInfo, Packet, PacketParseError,
    RLBotError};
use rlbot::records::{BallPrediction, DesiredGameState, FieldInfo, GamePacket, MatchComm,
    MatchConfiguration, PlayerInput, RemoveRenderGroup, RenderGroup, SetLoadout, StartCommand,
    StopCommand};
use rlbot::wire::{encode_packet, encode_batch, parse_header};

fn round_trip(p: Packet) {
    let bytes = encode_packet(&p).unwrap();
    let (tag, len) = parse_header(bytes[0], bytes[1], bytes[2], bytes[3]);
    assert_eq!(bytes.len(), 4 + len as usize);
    let decoded = Packet::from_payload(tag, &bytes[4..]).unwrap();
    assert_eq!(decoded, p);
}

#[test]
fn frame_round_trip_every_variant() {
    round_trip(Packet::Close);
    round_trip(Packet::GamePacket(GamePacket { payload: vec![1, 2, 3] }));
    round_trip(Packet::FieldInfo(FieldInfo { payload: vec![] }));
    round_trip(Packet::StartCommand(StartCommand { payload: vec![9] }));
    round_trip(Packet::MatchConfiguration(MatchConfiguration { payload: vec![5, 6] }));
    round_trip(Packet::PlayerInput(PlayerInput { payload: vec![7; 100] }));
    round_trip(Packet::DesiredGameState(DesiredGameState { payload: vec![0] }));
    round_trip(Packet::RenderGroup(RenderGroup { payload: vec![1] }));
    round_trip(Packet::RemoveRenderGroup(RemoveRenderGroup { payload: vec![2] }));
    round_trip(Packet::MatchComm(MatchComm { payload: vec![3, 3] }));
    round_trip(Packet::BallPrediction(BallPrediction { payload: vec![4, 4, 4] }));
    round_trip(Packet::ConnectionSettings(ConnectionSettings {
        agent_id: String::from("tester/bot"),
        wants_ball_predictions: true,
        wants_comms: false,
        close_between_matches: true,
    }));
    round_trip(Packet::StopCommand(StopCommand { payload: vec![8] }));
    round_trip(Packet::SetLoadout(SetLoadout { payload: vec![1, 2] }));
    round_trip(Packet::InitComplete);
    round_trip(Packet::ControllableTeamInfo(ControllableTeamInfo {
        team: 1,
        controllables: vec![
            ControllableInfo { index: 0, spawn_id: 10 },
            ControllableInfo { index: 1, spawn_id: -11 },
        ],
    }));
}

#[test]
fn frame_round_trip_game_packet() {
    let p = Packet::GamePacket(GamePacket { payload: vec![1, 2, 3, 4] });
    let bytes = encode_packet(&p).unwrap();
    assert_eq!(bytes, vec![0, 1, 0, 4, 1, 2, 3, 4]);
    let (tag, len) = parse_header(bytes[0], bytes[1], bytes[2], bytes[3]);
    assert_eq!(tag, 1);
    assert_eq!(len, 4);
    let decoded = Packet::from_payload(tag, &bytes[4..4 + len as usize]).unwrap();
    assert_eq!(decoded, p);
}

#[test]
fn sentinel_frames_are_empty() {
    assert_eq!(encode_packet(&Packet::Close).unwrap(), vec![0, 0, 0, 0]);
    assert_eq!(encode_packet(&Packet::InitComplete).unwrap(), vec![0, 14, 0, 0]);
}

#[test]
fn sentinel_decode_ignores_payload() {
    assert_eq!(Packet::from_payload(0, &[1, 2, 3]).unwrap(), Packet::Close);
    assert_eq!(Packet::from_payload(14, &[1]).unwrap(), Packet::InitComplete);
}

#[test]
fn unknown_tag_is_invalid_data_type() {
    let r = Packet::from_payload(999, &[0, 1, 2]);
    assert!(matches!(r, Err(PacketParseError::InvalidDataType(999))));
    assert!(matches!(Packet::from_payload(16, &[]), Err(PacketParseError::InvalidDataType(16))));
}

#[test]
fn oversized_payload_is_rejected_before_encoding() {
    let p = Packet::GamePacket(GamePacket { payload: vec![0u8; 65536] });
    assert!(matches!(encode_packet(&p), Err(RLBotError::PayloadTooLarge)));
    let batch = vec![
        Packet::PlayerInput(PlayerInput { payload: vec![1] }),
        Packet::GamePacket(GamePacket { payload: vec![0u8; 70000] }),
    ];
    assert!(matches!(encode_batch(&batch), Err(RLBotError::PayloadTooLarge)));
}

#[test]
fn largest_payload_still_fits() {
    let p = Packet::GamePacket(GamePacket { payload: vec![7u8; 65535] });
    let bytes = encode_packet(&p).unwrap();
    assert_eq!(bytes.len(), 4 + 65535);
    assert_eq!(&bytes[0..4], &[0, 1, 255, 255]);
}

#[test]
fn batch_encoding_concatenates_in_order() {
    let a = Packet::PlayerInput(PlayerInput { payload: vec![1] });
    let b = Packet::InitComplete;
    let bytes = encode_batch(&vec![a.clone(), b.clone()]).unwrap();
    let ea = encode_packet(&a).unwrap();
    let eb = encode_packet(&b).unwrap();
    let mut expected = ea.clone();
    expected.extend_from_slice(&eb);
    assert_eq!(bytes, expected);
}

#[test]
fn data_type_matches_tag_table() {
    assert_eq!(Packet::Close.data_type(), 0);
    assert_eq!(Packet::GamePacket(GamePacket { payload: vec![] }).data_type(), 1);
    assert_eq!(Packet::FieldInfo(FieldInfo { payload: vec![] }).data_type(), 2);
    assert_eq!(
        Packet::MatchConfiguration(MatchConfiguration { payload: vec![] }).data_type(),
        4
    );
    assert_eq!(Packet::PlayerInput(PlayerInput { payload: vec![] }).data_type(), 5);
    assert_eq!(Packet::DesiredGameState(DesiredGameState { payload: vec![] }).data_type(), 6);
    assert_eq!(Packet::MatchComm(MatchComm { payload: vec![] }).data_type(), 9);
    assert_eq!(Packet::BallPrediction(BallPrediction { payload: vec![] }).data_type(), 10);
    assert_eq!(Packet::InitComplete.data_type(), 14);
    assert_eq!(
        Packet::ControllableTeamInfo(ControllableTeamInfo { team: 0, controllables: vec![] })
            .data_type(),
        15
    );
}
