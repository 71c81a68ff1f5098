use rlbot::{Packet, PacketQueue, StartingInfoCollector};
use rlbot::records::{FieldInfo, GamePacket, MatchConfiguration};
use rlbot::{ControllableInfo, ControllableTeamInfo};

#[test]
fn queue_push_appends_and_drain_empties_atomically() {
    let mut q = PacketQueue::new(4);
    q.push(Packet::InitComplete);
    q.push(Packet::Close);
    let drained = q.empty();
    assert_eq!(drained, vec![Packet::InitComplete, Packet::Close]);
    assert_eq!(q.empty(), vec![]);
    q.push(Packet::InitComplete);
    assert_eq!(q.empty(), vec![Packet::InitComplete]);
}

#[test]
fn queue_default_is_empty() {
    let mut q = PacketQueue::default();
    assert_eq!(q.empty(), vec![]);
}

fn team_info(n: u32) -> Packet {
    Packet::ControllableTeamInfo(ControllableTeamInfo {
        team: n,
        controllables: vec![ControllableInfo { index: 0, spawn_id: 1 }],
    })
}

#[test]
fn startup_records_complete_in_any_order() {
    let mut c = StartingInfoCollector::new();
    assert!(!c.complete());
    c.offer(Packet::FieldInfo(FieldInfo { payload: vec![3] }));
    assert!(!c.complete());
    c.offer(team_info(1));
    assert!(!c.complete());
    // unrelated packets are ignored
    c.offer(Packet::GamePacket(GamePacket { payload: vec![] }));
    assert!(!c.complete());
    c.offer(Packet::MatchConfiguration(MatchConfiguration { payload: vec![2] }));
    assert!(c.complete());
    let info = c.finish().unwrap();
    assert_eq!(info.controllable_team_info.team, 1);
    assert_eq!(info.match_configuration.payload, vec![2]);
    assert_eq!(info.field_info.payload, vec![3]);
}

#[test]
fn startup_finish_before_completion_gives_nothing() {
    let mut c = StartingInfoCollector::new();
    c.offer(team_info(0));
    assert!(c.finish().is_none());
}

#[test]
fn later_startup_record_replaces_earlier_until_complete() {
    let mut c = StartingInfoCollector::new();
    c.offer(team_info(1));
    c.offer(team_info(2));
    c.offer(Packet::MatchConfiguration(MatchConfiguration { payload: vec![] }));
    c.offer(Packet::FieldInfo(FieldInfo { payload: vec![] }));
    let info = c.finish().unwrap();
    assert_eq!(info.controllable_team_info.team, 2);
}

#[test]
fn zero_controllable_startup_completes_with_no_workers_to_spawn() {
    let mut c = StartingInfoCollector::new();
    c.offer(Packet::ControllableTeamInfo(ControllableTeamInfo { team: 0, controllables: vec![] }));
    c.offer(Packet::MatchConfiguration(MatchConfiguration { payload: vec![] }));
    c.offer(Packet::FieldInfo(FieldInfo { payload: vec![] }));
    let info = c.finish().unwrap();
    // the runtime spawns one worker per controllable: none here, so it
    // returns successfully without any further protocol traffic
    assert_eq!(rlbot::spawn_plan(&info), None);

    let mut c = StartingInfoCollector::new();
    c.offer(Packet::ControllableTeamInfo(ControllableTeamInfo {
        team: 1,
        controllables: vec![ControllableInfo { index: 0, spawn_id: 3 }],
    }));
    c.offer(Packet::MatchConfiguration(MatchConfiguration { payload: vec![] }));
    c.offer(Packet::FieldInfo(FieldInfo { payload: vec![] }));
    assert_eq!(rlbot::spawn_plan(&c.finish().unwrap()), Some(1));
}

#[test]
fn mutator_settings_is_one_choice_of_every_option() {
    let a = rlbot::MutatorSettings {
        match_length: rlbot::mutators::MatchLength::FiveMinutes,
        max_score: rlbot::mutators::MaxScore::Unlimited,
        overtime_option: rlbot::mutators::OvertimeOption::Unlimited,
        series_length_option: rlbot::mutators::SeriesLengthOption::Unlimited,
        game_speed_option: rlbot::mutators::GameSpeedOption::Default,
        ball_max_speed_option: rlbot::mutators::BallMaxSpeedOption::Default,
        ball_type_option: rlbot::mutators::BallTypeOption::Default,
        ball_weight_option: rlbot::mutators::BallWeightOption::Default,
        ball_size_option: rlbot::mutators::BallSizeOption::Default,
        ball_bounciness_option: rlbot::mutators::BallBouncinessOption::Default,
        boost_option: rlbot::mutators::BoostOption::NormalBoost,
        rumble_option: rlbot::mutators::RumbleOption::NoRumble,
        boost_strength_option: rlbot::mutators::BoostStrengthOption::One,
        gravity_option: rlbot::mutators::GravityOption::Default,
        demolish_option: rlbot::mutators::DemolishOption::Default,
        respawn_time_option: rlbot::mutators::RespawnTimeOption::ThreeSeconds,
    };
    let mut b = a;
    assert_eq!(a, b);
    b.ball_type_option = rlbot::mutators::BallTypeOption::Puck;
    assert_ne!(a, b);
}
