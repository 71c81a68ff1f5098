use rlbot::{ConnectionSettings, ControllableInfo, ControllableTeamInfo, Packet, PacketParseError};
use rlbot::schema::{build_connection_settings, build_team_info, parse_connection_settings,
    parse_team_info};

#[test]
fn connection_settings_payload_layout_is_exact() {
    let cs = ConnectionSettings {
        agent_id: String::from("ab"),
        wants_ball_predictions: true,
        wants_comms: false,
        close_between_matches: true,
    };
    let payload = build_connection_settings(&cs);
    let expected: Vec<u8> = vec![
        16, 0, 0, 0, // root table offset
        12, 0, 12, 0, 4, 0, 8, 0, 9, 0, 10, 0, // vtable
        12, 0, 0, 0, // offset back to the vtable
        8, 0, 0, 0, // string offset
        1, 0, 1, 0, // the three flags and padding
        2, 0, 0, 0, // string length
        97, 98, 0, // "ab" with its trailing NUL
    ];
    assert_eq!(payload, expected);
}

#[test]
fn connection_settings_parse_of_built_payload() {
    let cs = ConnectionSettings {
        agent_id: String::from("rlbot/sample/v1"),
        wants_ball_predictions: false,
        wants_comms: true,
        close_between_matches: false,
    };
    let payload = build_connection_settings(&cs);
    let parsed = parse_connection_settings(&payload).unwrap();
    assert_eq!(parsed, cs);
}

#[test]
fn team_info_payload_layout_is_exact() {
    let payload = build_team_info(
        0,
        &vec![
            ControllableInfo { index: 0, spawn_id: 10 },
            ControllableInfo { index: 1, spawn_id: 11 },
        ],
    );
    let expected: Vec<u8> = vec![
        16, 0, 0, 0, // root table offset
        8, 0, 12, 0, 4, 0, 8, 0, // root vtable
        0, 0, 0, 0, // padding
        12, 0, 0, 0, // offset back to the vtable
        0, 0, 0, 0, // team
        4, 0, 0, 0, // vector offset
        2, 0, 0, 0, // element count
        16, 0, 0, 0, // offset to element 0
        24, 0, 0, 0, // offset to element 1
        8, 0, 12, 0, 4, 0, 8, 0, // shared element vtable
        8, 0, 0, 0, 0, 0, 0, 0, 10, 0, 0, 0, // element 0: vtable offset, index 0, spawn 10
        20, 0, 0, 0, 1, 0, 0, 0, 11, 0, 0, 0, // element 1: vtable offset, index 1, spawn 11
    ];
    assert_eq!(payload, expected);
}

#[test]
fn team_info_parse_of_built_payload() {
    let elems = vec![
        ControllableInfo { index: 3, spawn_id: -5 },
        ControllableInfo { index: 0, spawn_id: 2147483647 },
        ControllableInfo { index: 4294967295, spawn_id: -2147483648 },
    ];
    let payload = build_team_info(7, &elems);
    let parsed = parse_team_info(&payload).unwrap();
    assert_eq!(parsed, ControllableTeamInfo { team: 7, controllables: elems });
}

#[test]
fn team_info_empty_vector_round_trips() {
    let payload = build_team_info(2, &vec![]);
    let parsed = parse_team_info(&payload).unwrap();
    assert_eq!(parsed, ControllableTeamInfo { team: 2, controllables: vec![] });
}

#[test]
fn team_info_missing_fields_take_defaults() {
    // A conforming payload whose vtable has no slots beyond its header:
    // both fields fall back to their defaults.
    let payload: Vec<u8> = vec![
        8, 0, 0, 0, // root table at 8
        4, 0, 4, 0, // vtable: no field slots
        4, 0, 0, 0, // table: offset back to the vtable
    ];
    let parsed = parse_team_info(&payload).unwrap();
    assert_eq!(parsed, ControllableTeamInfo { team: 0, controllables: vec![] });
}

#[test]
fn malformed_team_info_is_invalid_flatbuffer() {
    assert!(matches!(
        Packet::from_payload(15, &[]),
        Err(PacketParseError::InvalidFlatbuffer)
    ));
    // root offset pointing past the payload
    assert!(matches!(
        Packet::from_payload(15, &[200, 0, 0, 0, 0, 0, 0, 0]),
        Err(PacketParseError::InvalidFlatbuffer)
    ));
    // element count far larger than the payload
    let payload: Vec<u8> = vec![
        16, 0, 0, 0, //
        8, 0, 12, 0, 4, 0, 8, 0, //
        0, 0, 0, 0, //
        12, 0, 0, 0, //
        0, 0, 0, 0, //
        4, 0, 0, 0, //
        255, 255, 0, 0, // claims 65535 elements
    ];
    assert!(matches!(
        Packet::from_payload(15, &payload),
        Err(PacketParseError::InvalidFlatbuffer)
    ));
}

#[test]
fn malformed_connection_settings_is_invalid_flatbuffer() {
    assert!(matches!(
        Packet::from_payload(11, &[1]),
        Err(PacketParseError::InvalidFlatbuffer)
    ));
    // string bytes that are not UTF-8
    let cs = ConnectionSettings {
        agent_id: String::from("xy"),
        wants_ball_predictions: false,
        wants_comms: false,
        close_between_matches: false,
    };
    let mut payload = build_connection_settings(&cs);
    payload[32] = 0xff;
    payload[33] = 0xfe;
    assert!(matches!(
        Packet::from_payload(11, &payload),
        Err(PacketParseError::InvalidFlatbuffer)
    ));
}

#[test]
fn connection_settings_decode_through_packet() {
    let cs = ConnectionSettings {
        agent_id: String::from("a"),
        wants_ball_predictions: true,
        wants_comms: true,
        close_between_matches: true,
    };
    let payload = build_connection_settings(&cs);
    let p = Packet::from_payload(11, &payload).unwrap();
    assert_eq!(p, Packet::ConnectionSettings(cs));
}
