//! A client runtime for driving entities in a remote real-time simulation
//! over one persistent binary socket connection.
//!
//! The crate has two halves. The wire half turns packets into length-prefixed,
//! type-tagged frames and back, with a verified codec for the two handshake
//! records the runtime itself reads and writes. The runtime half fans one
//! stream of simulation ticks out to per-entity workers and merges their
//! responses into one combined write per tick, with the routing rules stated
//! and proved as contracts.

pub mod agents;
pub mod bytes;
pub mod channel;
pub mod hivemind;
pub mod mutators;
pub mod packet;
pub mod queue;
pub mod records;
pub mod route;
pub mod schema;
pub mod scripts;
pub mod startup;
pub mod wire;

pub use agents::Agent;
pub use agents::AgentError;
pub use agents::AgentSession;
pub use agents::AgentWorker;
pub use agents::WorkerLink;
pub use agents::spawn_plan;
pub use hivemind::Hivemind;
pub use hivemind::HivemindError;
pub use hivemind::HivemindSession;
pub use mutators::MutatorSettings;
pub use packet::Packet;
pub use scripts::Script;
pub use scripts::ScriptError;
pub use scripts::ScriptSession;
pub use packet::PacketParseError;
pub use packet::RLBotError;
pub use queue::PacketQueue;
pub use startup::StartingInfoCollector;
pub use records::BallPrediction;
pub use records::Color;
pub use records::ConnectionSettings;
pub use records::ControllableInfo;
pub use records::ControllableTeamInfo;
pub use records::DesiredGameState;
pub use records::FieldInfo;
pub use records::GamePacket;
pub use records::LoadoutPaint;
pub use records::MatchComm;
pub use records::MatchConfiguration;
pub use records::PlayerInput;
pub use records::PlayerLoadout;
pub use records::RLBotEnvironment;
pub use records::RemoveRenderGroup;
pub use records::RenderGroup;
pub use records::SetLoadout;
pub use records::StartCommand;
pub use records::StartingInfo;
pub use records::StopCommand;
