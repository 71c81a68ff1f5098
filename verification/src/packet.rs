//! The closed set of protocol packets, with their stable wire tags, and the
//! error taxonomy of the library.

use vstd::prelude::*;
use crate::records::{BallPrediction, ConnectionSettings, ControllableTeamInfo, DesiredGameState,
    FieldInfo, GamePacket, MatchComm, MatchConfiguration, PlayerInput, RemoveRenderGroup,
    RenderGroup, SetLoadout, StartCommand, StopCommand};
use crate::schema::{build_connection_settings, build_team_info, parse_connection_settings,
    parse_team_info, spec_connection_settings_payload, spec_parse_connection_settings,
    spec_parse_team_info, spec_team_info_payload, lemma_team_info_payload_len,
    lemma_connection_settings_payload_len};
use crate::bytes::clone_bytes;

verus! {

/// Why a received frame could not be turned into a packet: an unknown wire
/// tag, or a known tag whose schema-encoded payload does not parse.
#[derive(Debug, Clone, Copy, PartialEq, Eq, Structural)]
pub enum PacketParseError {
    InvalidDataType(u16),
    InvalidFlatbuffer,
}

/// A failure that aborts the active runtime loop: the socket failed, a
/// frame could not be decoded, or a payload exceeded the 16-bit frame
/// ceiling at encode time.
#[derive(Debug, Clone, PartialEq)]
pub enum RLBotError {
    Connection(String),
    PacketParseError(PacketParseError),
    PayloadTooLarge,
}

/// One protocol message. Sentinels carry nothing; the two handshake records
/// the runtime reads or writes carry plain values; every other record
/// carries its schema-encoded payload unread.
///
/// The unread payloads are a deliberate boundary: interpreting them is the
/// external schema decoder's job, at the collaborator edge outside this
/// library. Decoding such a record here therefore validates nothing
/// inside its bytes — a malformed payload under one of those twelve tags
/// travels through intact and surfaces, if at all, where the schema
/// decoder is finally applied. Only the two records whose contents this
/// runtime itself depends on — `ControllableTeamInfo`, which it reads,
/// and `ConnectionSettings`, which it writes — are parsed and built here,
/// by the verified codec in the schema module.
///
/// `Close` is the none/close lifecycle sentinel at wire tag 0;
/// `InitComplete` is the ready sentinel at wire tag 14.
#[derive(Debug, Clone, PartialEq)]
pub enum Packet {
    Close,
    GamePacket(GamePacket),
    FieldInfo(FieldInfo),
    StartCommand(StartCommand),
    MatchConfiguration(MatchConfiguration),
    PlayerInput(PlayerInput),
    DesiredGameState(DesiredGameState),
    RenderGroup(RenderGroup),
    RemoveRenderGroup(RemoveRenderGroup),
    MatchComm(MatchComm),
    BallPrediction(BallPrediction),
    ConnectionSettings(ConnectionSettings),
    StopCommand(StopCommand),
    SetLoadout(SetLoadout),
    InitComplete,
    ControllableTeamInfo(ControllableTeamInfo),
}

/// The stable wire tag of each variant.
pub open spec fn spec_data_type(p: &Packet) -> u16 {
    match p {
        Packet::Close => 0,
        Packet::GamePacket(_) => 1,
        Packet::FieldInfo(_) => 2,
        Packet::StartCommand(_) => 3,
        Packet::MatchConfiguration(_) => 4,
        Packet::PlayerInput(_) => 5,
        Packet::DesiredGameState(_) => 6,
        Packet::RenderGroup(_) => 7,
        Packet::RemoveRenderGroup(_) => 8,
        Packet::MatchComm(_) => 9,
        Packet::BallPrediction(_) => 10,
        Packet::ConnectionSettings(_) => 11,
        Packet::StopCommand(_) => 12,
        Packet::SetLoadout(_) => 13,
        Packet::InitComplete => 14,
        Packet::ControllableTeamInfo(_) => 15,
    }
}

/// The payload bytes each variant puts on the wire: nothing for sentinels,
/// the canonical record encoding for the two parsed records, and the stored
/// bytes for every other record.
pub open spec fn spec_payload(p: &Packet) -> Seq<u8> {
    match p {
        Packet::Close => Seq::empty(),
        Packet::GamePacket(x) => x.payload@,
        Packet::FieldInfo(x) => x.payload@,
        Packet::StartCommand(x) => x.payload@,
        Packet::MatchConfiguration(x) => x.payload@,
        Packet::PlayerInput(x) => x.payload@,
        Packet::DesiredGameState(x) => x.payload@,
        Packet::RenderGroup(x) => x.payload@,
        Packet::RemoveRenderGroup(x) => x.payload@,
        Packet::MatchComm(x) => x.payload@,
        Packet::BallPrediction(x) => x.payload@,
        Packet::ConnectionSettings(cs) => spec_connection_settings_payload(cs@),
        Packet::StopCommand(x) => x.payload@,
        Packet::SetLoadout(x) => x.payload@,
        Packet::InitComplete => Seq::empty(),
        Packet::ControllableTeamInfo(ti) => spec_team_info_payload(ti.team, ti.controllables@),
    }
}

impl View for Packet {
    /// A packet's observable fields: its wire tag and its payload bytes.
    type V = (u16, Seq<u8>);

    open spec fn view(&self) -> (u16, Seq<u8>) {
        (spec_data_type(self), spec_payload(self))
    }
}

/// What a successful decode of `(tag, b)` must return.
pub open spec fn decode_ok(tag: u16, b: Seq<u8>, p: Packet) -> bool {
    match p {
        Packet::Close => tag == 0,
        Packet::GamePacket(x) => tag == 1 && x.payload@ == b,
        Packet::FieldInfo(x) => tag == 2 && x.payload@ == b,
        Packet::StartCommand(x) => tag == 3 && x.payload@ == b,
        Packet::MatchConfiguration(x) => tag == 4 && x.payload@ == b,
        Packet::PlayerInput(x) => tag == 5 && x.payload@ == b,
        Packet::DesiredGameState(x) => tag == 6 && x.payload@ == b,
        Packet::RenderGroup(x) => tag == 7 && x.payload@ == b,
        Packet::RemoveRenderGroup(x) => tag == 8 && x.payload@ == b,
        Packet::MatchComm(x) => tag == 9 && x.payload@ == b,
        Packet::BallPrediction(x) => tag == 10 && x.payload@ == b,
        Packet::ConnectionSettings(cs) => tag == 11 && spec_parse_connection_settings(b)
            == Some(cs@),
        Packet::StopCommand(x) => tag == 12 && x.payload@ == b,
        Packet::SetLoadout(x) => tag == 13 && x.payload@ == b,
        Packet::InitComplete => tag == 14,
        Packet::ControllableTeamInfo(ti) => tag == 15 && spec_parse_team_info(b) == Some(ti@),
    }
}

impl Packet {
    /// The wire tag of this packet.
    pub fn data_type(&self) -> (r: u16)
        ensures
            r == spec_data_type(self),
    {
        match self {
            Packet::Close => 0,
            Packet::GamePacket(_) => 1,
            Packet::FieldInfo(_) => 2,
            Packet::StartCommand(_) => 3,
            Packet::MatchConfiguration(_) => 4,
            Packet::PlayerInput(_) => 5,
            Packet::DesiredGameState(_) => 6,
            Packet::RenderGroup(_) => 7,
            Packet::RemoveRenderGroup(_) => 8,
            Packet::MatchComm(_) => 9,
            Packet::BallPrediction(_) => 10,
            Packet::ConnectionSettings(_) => 11,
            Packet::StopCommand(_) => 12,
            Packet::SetLoadout(_) => 13,
            Packet::InitComplete => 14,
            Packet::ControllableTeamInfo(_) => 15,
        }
    }

    /// The length this packet's payload will have on the wire, when it fits
    /// the 16-bit frame ceiling; nothing when it does not. Decided without
    /// building the payload, so an oversized packet is rejected before any
    /// bytes exist.
    pub fn payload_len(&self) -> (r: Option<usize>)
        ensures
            match r {
                Some(l) => l == spec_payload(self).len() && l <= 65535,
                None => spec_payload(self).len() > 65535,
            },
    {
        match self {
            Packet::Close => Some(0),
            Packet::GamePacket(x) => bytes_len(&x.payload),
            Packet::FieldInfo(x) => bytes_len(&x.payload),
            Packet::StartCommand(x) => bytes_len(&x.payload),
            Packet::MatchConfiguration(x) => bytes_len(&x.payload),
            Packet::PlayerInput(x) => bytes_len(&x.payload),
            Packet::DesiredGameState(x) => bytes_len(&x.payload),
            Packet::RenderGroup(x) => bytes_len(&x.payload),
            Packet::RemoveRenderGroup(x) => bytes_len(&x.payload),
            Packet::MatchComm(x) => bytes_len(&x.payload),
            Packet::BallPrediction(x) => bytes_len(&x.payload),
            Packet::ConnectionSettings(cs) => {
                proof {
                    lemma_connection_settings_payload_len(cs@);
                }
                let l = cs.agent_id.as_str().as_bytes().len();
                if l > 65502 {
                    None
                } else {
                    Some(33 + l)
                }
            },
            Packet::StopCommand(x) => bytes_len(&x.payload),
            Packet::SetLoadout(x) => bytes_len(&x.payload),
            Packet::InitComplete => Some(0),
            Packet::ControllableTeamInfo(ti) => {
                proof {
                    lemma_team_info_payload_len(ti.team, ti.controllables@);
                }
                let n = ti.controllables.len();
                if n > 4093 {
                    None
                } else {
                    Some(40 + 16 * n)
                }
            },
        }
    }

    /// Produces this packet's payload bytes, per `spec_payload`. Sentinels
    /// give an empty payload.
    pub fn build(&self) -> (r: Vec<u8>)
        requires
            spec_payload(self).len() <= 65535,
        ensures
            r@ == spec_payload(self),
    {
        match self {
            Packet::Close => Vec::new(),
            Packet::GamePacket(x) => clone_bytes(&x.payload),
            Packet::FieldInfo(x) => clone_bytes(&x.payload),
            Packet::StartCommand(x) => clone_bytes(&x.payload),
            Packet::MatchConfiguration(x) => clone_bytes(&x.payload),
            Packet::PlayerInput(x) => clone_bytes(&x.payload),
            Packet::DesiredGameState(x) => clone_bytes(&x.payload),
            Packet::RenderGroup(x) => clone_bytes(&x.payload),
            Packet::RemoveRenderGroup(x) => clone_bytes(&x.payload),
            Packet::MatchComm(x) => clone_bytes(&x.payload),
            Packet::BallPrediction(x) => clone_bytes(&x.payload),
            Packet::ConnectionSettings(cs) => build_connection_settings(cs),
            Packet::StopCommand(x) => clone_bytes(&x.payload),
            Packet::SetLoadout(x) => clone_bytes(&x.payload),
            Packet::InitComplete => Vec::new(),
            Packet::ControllableTeamInfo(ti) => {
                proof {
                    lemma_team_info_payload_len(ti.team, ti.controllables@);
                }
                build_team_info(ti.team, &ti.controllables)
            },
        }
    }

    /// Decodes the payload of a frame with the given tag.
    ///
    /// Returns the packet exactly as `decode_ok` pins it down; fails with
    /// `InvalidDataType` exactly on an unknown tag and with
    /// `InvalidFlatbuffer` exactly when a handshake record's payload does
    /// not parse. Payloads under the pass-through tags are carried as
    /// they arrived, without validation — their schemas belong to the
    /// external decoder, not to this library.
    pub fn from_payload(data_type: u16, payload: &[u8]) -> (r: Result<Packet, PacketParseError>)
        ensures
            match r {
                Ok(p) => decode_ok(data_type, payload@, p),
                Err(PacketParseError::InvalidDataType(t)) => t == data_type && data_type > 15,
                Err(PacketParseError::InvalidFlatbuffer) => (data_type == 11
                    && spec_parse_connection_settings(payload@) is None) || (data_type == 15
                    && spec_parse_team_info(payload@) is None),
            },
    {
        match data_type {
            0 => Ok(Packet::Close),
            1 => Ok(Packet::GamePacket(GamePacket { payload: slice_to_bytes(payload) })),
            2 => Ok(Packet::FieldInfo(FieldInfo { payload: slice_to_bytes(payload) })),
            3 => Ok(Packet::StartCommand(StartCommand { payload: slice_to_bytes(payload) })),
            4 => Ok(Packet::MatchConfiguration(MatchConfiguration {
                payload: slice_to_bytes(payload),
            })),
            5 => Ok(Packet::PlayerInput(PlayerInput { payload: slice_to_bytes(payload) })),
            6 => Ok(Packet::DesiredGameState(DesiredGameState {
                payload: slice_to_bytes(payload),
            })),
            7 => Ok(Packet::RenderGroup(RenderGroup { payload: slice_to_bytes(payload) })),
            8 => Ok(Packet::RemoveRenderGroup(RemoveRenderGroup {
                payload: slice_to_bytes(payload),
            })),
            9 => Ok(Packet::MatchComm(MatchComm { payload: slice_to_bytes(payload) })),
            10 => Ok(Packet::BallPrediction(BallPrediction { payload: slice_to_bytes(payload) })),
            11 => match parse_connection_settings(payload) {
                Some(cs) => Ok(Packet::ConnectionSettings(cs)),
                None => Err(PacketParseError::InvalidFlatbuffer),
            },
            12 => Ok(Packet::StopCommand(StopCommand { payload: slice_to_bytes(payload) })),
            13 => Ok(Packet::SetLoadout(SetLoadout { payload: slice_to_bytes(payload) })),
            14 => Ok(Packet::InitComplete),
            15 => match parse_team_info(payload) {
                Some(ti) => Ok(Packet::ControllableTeamInfo(ti)),
                None => Err(PacketParseError::InvalidFlatbuffer),
            },
            _ => Err(PacketParseError::InvalidDataType(data_type)),
        }
    }
}


/// What decoding a frame's tag and payload yields, at the level of
/// observable fields: sentinels decode regardless of payload; a handshake
/// record's payload must parse, and the packet then carries the parsed
/// record (whose own payload is the canonical encoding); any other known
/// tag carries the payload bytes through; an unknown tag fails.
pub open spec fn spec_decode(tag: u16, b: Seq<u8>) -> Option<(u16, Seq<u8>)> {
    if tag == 0 || tag == 14 {
        Some((tag, Seq::<u8>::empty()))
    } else if tag == 11 {
        match spec_parse_connection_settings(b) {
            Some(v) => Some((11u16, spec_connection_settings_payload(v))),
            None => None,
        }
    } else if tag == 15 {
        match spec_parse_team_info(b) {
            Some(v) => Some((15u16, spec_team_info_payload(v.0, v.1))),
            None => None,
        }
    } else if tag <= 15 {
        Some((tag, b))
    } else {
        None
    }
}

/// A packet pinned down by `decode_ok` has exactly the observable fields
/// that `spec_decode` gives for the same tag and payload.
pub proof fn lemma_decode_ok_view(tag: u16, b: Seq<u8>, p: Packet)
    requires
        decode_ok(tag, b, p),
    ensures
        spec_decode(tag, b) == Some(p@),
{
}

/// Copies a packet, keeping its observable fields.
pub fn clone_packet(p: &Packet) -> (r: Packet)
    ensures
        r@ == p@,
{
    match p {
        Packet::Close => Packet::Close,
        Packet::GamePacket(x) => Packet::GamePacket(GamePacket {
            payload: clone_bytes(&x.payload),
        }),
        Packet::FieldInfo(x) => Packet::FieldInfo(FieldInfo { payload: clone_bytes(&x.payload) }),
        Packet::StartCommand(x) => Packet::StartCommand(StartCommand {
            payload: clone_bytes(&x.payload),
        }),
        Packet::MatchConfiguration(x) => Packet::MatchConfiguration(MatchConfiguration {
            payload: clone_bytes(&x.payload),
        }),
        Packet::PlayerInput(x) => Packet::PlayerInput(PlayerInput {
            payload: clone_bytes(&x.payload),
        }),
        Packet::DesiredGameState(x) => Packet::DesiredGameState(DesiredGameState {
            payload: clone_bytes(&x.payload),
        }),
        Packet::RenderGroup(x) => Packet::RenderGroup(RenderGroup {
            payload: clone_bytes(&x.payload),
        }),
        Packet::RemoveRenderGroup(x) => Packet::RemoveRenderGroup(RemoveRenderGroup {
            payload: clone_bytes(&x.payload),
        }),
        Packet::MatchComm(x) => Packet::MatchComm(MatchComm { payload: clone_bytes(&x.payload) }),
        Packet::BallPrediction(x) => Packet::BallPrediction(BallPrediction {
            payload: clone_bytes(&x.payload),
        }),
        Packet::ConnectionSettings(cs) => Packet::ConnectionSettings(clone_connection_settings(cs)),
        Packet::StopCommand(x) => Packet::StopCommand(StopCommand {
            payload: clone_bytes(&x.payload),
        }),
        Packet::SetLoadout(x) => Packet::SetLoadout(SetLoadout {
            payload: clone_bytes(&x.payload),
        }),
        Packet::InitComplete => Packet::InitComplete,
        Packet::ControllableTeamInfo(ti) => Packet::ControllableTeamInfo(clone_team_info(ti)),
    }
}

/// Copies a `ConnectionSettings` record, keeping its fields.
pub fn clone_connection_settings(cs: &ConnectionSettings) -> (r: ConnectionSettings)
    ensures
        r@ == cs@,
{
    ConnectionSettings {
        agent_id: cs.agent_id.clone(),
        wants_ball_predictions: cs.wants_ball_predictions,
        wants_comms: cs.wants_comms,
        close_between_matches: cs.close_between_matches,
    }
}

/// Copies a `ControllableTeamInfo` record, keeping its fields.
pub fn clone_team_info(ti: &ControllableTeamInfo) -> (r: ControllableTeamInfo)
    ensures
        r@ == ti@,
{
    let mut cs: Vec<crate::records::ControllableInfo> = Vec::new();
    let mut i: usize = 0;
    while i < ti.controllables.len()
        invariant
            i <= ti.controllables@.len(),
            cs@ == ti.controllables@.take(i as int),
        decreases ti.controllables@.len() - i as int,
    {
        cs.push(ti.controllables[i]);
        proof {
            assert(cs@ =~= ti.controllables@.take(i as int + 1));
        }
        i = i + 1;
    }
    proof {
        assert(cs@ =~= ti.controllables@);
    }
    ControllableTeamInfo { team: ti.team, controllables: cs }
}


/// Copies a byte slice into a vector.
fn slice_to_bytes(b: &[u8]) -> (r: Vec<u8>)
    ensures
        r@ == b@,
{
    vstd::slice::slice_to_vec(b)
}

/// The payload length of a pass-through record, when it fits the frame
/// ceiling.
fn bytes_len(v: &Vec<u8>) -> (r: Option<usize>)
    ensures
        match r {
            Some(l) => l == v@.len() && l <= 65535,
            None => v@.len() > 65535,
        },
{
    if v.len() > 65535 {
        None
    } else {
        Some(v.len())
    }
}

} // verus!
