//! The data model: plain-value forms of the protocol records.
//!
//! Most records cross this library unread: the runtime routes them by wire
//! tag and never looks at their contents, so each such record holds its
//! schema-encoded payload bytes as they travel on the wire. The two records
//! that the runtime itself reads or writes during the handshake —
//! `ControllableTeamInfo` and `ConnectionSettings` — are held as plain
//! values instead; the `schema` module converts them to and from payload
//! bytes.

use vstd::prelude::*;

verus! {

/// One entity slot under this client's control.
#[derive(Debug, Clone, Copy, PartialEq, Eq, Structural)]
pub struct ControllableInfo {
    /// Entity slot number.
    pub index: u32,
    /// Stable identity that survives respawns.
    pub spawn_id: i32,
}

/// The set of entities a team hands to this client, received exactly once at
/// startup. Its length determines the number of workers in agent mode.
#[derive(Debug, Clone, PartialEq)]
pub struct ControllableTeamInfo {
    pub team: u32,
    pub controllables: Vec<ControllableInfo>,
}

impl View for ControllableTeamInfo {
    type V = (u32, Seq<ControllableInfo>);

    open spec fn view(&self) -> (u32, Seq<ControllableInfo>) {
        (self.team, self.controllables@)
    }
}

/// The handshake record a client sends first: its identity and capability
/// flags.
#[derive(Debug, Clone, PartialEq)]
pub struct ConnectionSettings {
    pub agent_id: String,
    pub wants_ball_predictions: bool,
    pub wants_comms: bool,
    pub close_between_matches: bool,
}

impl View for ConnectionSettings {
    type V = (Seq<char>, bool, bool, bool);

    open spec fn view(&self) -> (Seq<char>, bool, bool, bool) {
        (self.agent_id@, self.wants_ball_predictions, self.wants_comms,
            self.close_between_matches)
    }
}

/// A tick snapshot as schema-encoded bytes; superseded by the next tick.
#[derive(Debug, Clone, PartialEq)]
pub struct GamePacket {
    pub payload: Vec<u8>,
}

/// The read-only field description received once at startup.
#[derive(Debug, Clone, PartialEq)]
pub struct FieldInfo {
    pub payload: Vec<u8>,
}

/// The read-only match description received once at startup.
#[derive(Debug, Clone, PartialEq)]
pub struct MatchConfiguration {
    pub payload: Vec<u8>,
}

/// A ball-trajectory forecast; at most one is live at a time.
#[derive(Debug, Clone, PartialEq)]
pub struct BallPrediction {
    pub payload: Vec<u8>,
}

/// A text communication record, travelling in both directions.
#[derive(Debug, Clone, PartialEq)]
pub struct MatchComm {
    pub payload: Vec<u8>,
}

/// A request to start a match.
#[derive(Debug, Clone, PartialEq)]
pub struct StartCommand {
    pub payload: Vec<u8>,
}

/// Entity input for one tick.
#[derive(Debug, Clone, PartialEq)]
pub struct PlayerInput {
    pub payload: Vec<u8>,
}

/// A desired-state mutation of the world.
#[derive(Debug, Clone, PartialEq)]
pub struct DesiredGameState {
    pub payload: Vec<u8>,
}

/// A render request.
#[derive(Debug, Clone, PartialEq)]
pub struct RenderGroup {
    pub payload: Vec<u8>,
}

/// Removal of a previously issued render group.
#[derive(Debug, Clone, PartialEq)]
pub struct RemoveRenderGroup {
    pub payload: Vec<u8>,
}

/// A request to stop the running match.
#[derive(Debug, Clone, PartialEq)]
pub struct StopCommand {
    pub payload: Vec<u8>,
}

/// A loadout change for one entity.
#[derive(Debug, Clone, PartialEq)]
pub struct SetLoadout {
    pub payload: Vec<u8>,
}

/// The three startup records, each seen at least once before play begins.
#[derive(Debug, Clone, PartialEq)]
pub struct StartingInfo {
    pub controllable_team_info: ControllableTeamInfo,
    pub match_configuration: MatchConfiguration,
    pub field_info: FieldInfo,
}

/// Connection parameters discovered outside the core: a server address and
/// an optional identity. Reading them from the environment happens at the
/// application edge; this is only their carrier.
#[derive(Debug, Clone, PartialEq)]
pub struct RLBotEnvironment {
    pub server_addr: String,
    pub agent_id: Option<String>,
}

/// An ARGB color used in loadout records.
#[derive(Debug, Clone, Copy, PartialEq, Eq, Structural)]
pub struct Color {
    pub a: u8,
    pub r: u8,
    pub g: u8,
    pub b: u8,
}

impl Default for Color {
    fn default() -> (r: Self)
        ensures
            r.a == 0 && r.r == 0 && r.g == 0 && r.b == 0,
    {
        Color { a: 0, r: 0, g: 0, b: 0 }
    }
}

/// Paint finishes for each car part.
#[derive(Debug, Clone, Copy, PartialEq, Eq, Structural)]
pub struct LoadoutPaint {
    pub car_paint_id: i32,
    pub decal_paint_id: i32,
    pub wheels_paint_id: i32,
    pub boost_paint_id: i32,
    pub antenna_paint_id: i32,
    pub hat_paint_id: i32,
    pub trails_paint_id: i32,
    pub goal_explosion_paint_id: i32,
}

/// Item choices for one car.
#[derive(Debug, Clone, PartialEq)]
pub struct PlayerLoadout {
    pub team_color_id: i32,
    pub custom_color_id: i32,
    pub car_id: i32,
    pub decal_id: i32,
    pub wheels_id: i32,
    pub boost_id: i32,
    pub antenna_id: i32,
    pub hat_id: i32,
    pub paint_finish_id: i32,
    pub custom_finish_id: i32,
    pub engine_audio_id: i32,
    pub trails_id: i32,
    pub goal_explosion_id: i32,
    pub loadout_paint: Option<LoadoutPaint>,
    pub primary_color_lookup: Option<Color>,
    pub secondary_color_lookup: Option<Color>,
}

} // verus!
