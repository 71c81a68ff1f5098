//! The mutator options of a match-configuration record, as plain values:
//! the closed enumerations a caller picks from when asking for a match,
//! and the record that bundles one choice of each. Turning them into a
//! schema-encoded payload is the external schema encoder's job, at the
//! same boundary as every other record this library carries unread.

use vstd::prelude::*;

verus! {

#[derive(Debug, Clone, Copy, PartialEq, Eq, Structural)]
pub enum MatchLength {
    FiveMinutes,
    TenMinutes,
    TwentyMinutes,
    Unlimited,
}

#[derive(Debug, Clone, Copy, PartialEq, Eq, Structural)]
pub enum MaxScore {
    Unlimited,
    OneGoal,
    ThreeGoals,
    FiveGoals,
}

#[derive(Debug, Clone, Copy, PartialEq, Eq, Structural)]
pub enum OvertimeOption {
    Unlimited,
    FiveMaxFirstScore,
    FiveMaxRandomTeam,
}

#[derive(Debug, Clone, Copy, PartialEq, Eq, Structural)]
pub enum SeriesLengthOption {
    Unlimited,
    ThreeGames,
    FiveGames,
    SevenGames,
}

#[derive(Debug, Clone, Copy, PartialEq, Eq, Structural)]
pub enum GameSpeedOption {
    Default,
    SloMo,
    TimeWarp,
}

#[derive(Debug, Clone, Copy, PartialEq, Eq, Structural)]
pub enum BallMaxSpeedOption {
    Default,
    Slow,
    Fast,
    SuperFast,
}

#[derive(Debug, Clone, Copy, PartialEq, Eq, Structural)]
pub enum BallTypeOption {
    Default,
    Cube,
    Puck,
    Basketball,
}

#[derive(Debug, Clone, Copy, PartialEq, Eq, Structural)]
pub enum BallWeightOption {
    Default,
    Light,
    Heavy,
    SuperLight,
}

#[derive(Debug, Clone, Copy, PartialEq, Eq, Structural)]
pub enum BallSizeOption {
    Default,
    Small,
    Large,
    Gigantic,
}

#[derive(Debug, Clone, Copy, PartialEq, Eq, Structural)]
pub enum BallBouncinessOption {
    Default,
    Low,
    High,
    SuperHigh,
}

#[derive(Debug, Clone, Copy, PartialEq, Eq, Structural)]
pub enum BoostOption {
    NormalBoost,
    UnlimitedBoost,
    SlowRecharge,
    RapidRecharge,
    NoBoost,
}

#[derive(Debug, Clone, Copy, PartialEq, Eq, Structural)]
pub enum RumbleOption {
    NoRumble,
    Default,
    Slow,
    Civilized,
    DestructionDerby,
    SpringLoaded,
    SpikesOnly,
    SpikeRush,
}

#[derive(Debug, Clone, Copy, PartialEq, Eq, Structural)]
pub enum BoostStrengthOption {
    One,
    OneAndAHalf,
    Two,
    Ten,
}

#[derive(Debug, Clone, Copy, PartialEq, Eq, Structural)]
pub enum GravityOption {
    Default,
    Low,
    High,
    SuperHigh,
}

#[derive(Debug, Clone, Copy, PartialEq, Eq, Structural)]
pub enum DemolishOption {
    Default,
    Disabled,
    FriendlyFire,
    OnContact,
    OnBallContact,
}

#[derive(Debug, Clone, Copy, PartialEq, Eq, Structural)]
pub enum RespawnTimeOption {
    ThreeSeconds,
    TwoSeconds,
    OneSecond,
    DisableGoalReset,
}

/// One choice of every match mutator.
#[derive(Debug, Clone, Copy, PartialEq, Eq, Structural)]
pub struct MutatorSettings {
    pub match_length: MatchLength,
    pub max_score: MaxScore,
    pub overtime_option: OvertimeOption,
    pub series_length_option: SeriesLengthOption,
    pub game_speed_option: GameSpeedOption,
    pub ball_max_speed_option: BallMaxSpeedOption,
    pub ball_type_option: BallTypeOption,
    pub ball_weight_option: BallWeightOption,
    pub ball_size_option: BallSizeOption,
    pub ball_bounciness_option: BallBouncinessOption,
    pub boost_option: BoostOption,
    pub rumble_option: RumbleOption,
    pub boost_strength_option: BoostStrengthOption,
    pub gravity_option: GravityOption,
    pub demolish_option: DemolishOption,
    pub respawn_time_option: RespawnTimeOption,
}

} // verus!
