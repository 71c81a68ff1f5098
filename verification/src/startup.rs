//! The handshake: the client sends its connection settings first, then
//! accumulates incoming packets until the three startup records — the
//! controllable-team info, the match configuration and the field info —
//! have each been seen at least once. Their arrival order is not
//! guaranteed, and a later copy of a record replaces an earlier one until
//! the set is complete.

use vstd::prelude::*;
use crate::packet::{Packet, RLBotError, clone_connection_settings};
use crate::records::{ConnectionSettings, ControllableTeamInfo, FieldInfo, MatchConfiguration,
    StartingInfo};
use crate::wire::{encode_packet, spec_frame};

verus! {

/// The one frame the handshake sends: the client's connection settings.
/// Rejected before any bytes exist if and only if the identity string
/// would push the payload over the 16-bit frame ceiling.
pub fn handshake_frame(settings: &ConnectionSettings) -> (r: Result<Vec<u8>, RLBotError>)
    ensures
        match r {
            Ok(bytes) => bytes@ == spec_frame(&Packet::ConnectionSettings(*settings)),
            Err(e) => e == RLBotError::PayloadTooLarge && crate::packet::spec_payload(
                &Packet::ConnectionSettings(*settings)).len() > 65535,
        },
{
    let p = Packet::ConnectionSettings(clone_connection_settings(settings));
    encode_packet(&p)
}

/// Accumulates the three startup records out of the incoming packet
/// stream.
pub struct StartingInfoCollector {
    controllable_team_info: Option<ControllableTeamInfo>,
    match_configuration: Option<MatchConfiguration>,
    field_info: Option<FieldInfo>,
}

impl StartingInfoCollector {
    /// The team record seen so far, if any.
    pub closed spec fn team_info(&self) -> Option<(u32, Seq<crate::records::ControllableInfo>)> {
        match self.controllable_team_info {
            Some(ti) => Some(ti@),
            None => None,
        }
    }

    /// The match configuration seen so far, if any.
    pub closed spec fn config(&self) -> Option<Seq<u8>> {
        match self.match_configuration {
            Some(c) => Some(c.payload@),
            None => None,
        }
    }

    /// The field info seen so far, if any.
    pub closed spec fn field(&self) -> Option<Seq<u8>> {
        match self.field_info {
            Some(f) => Some(f.payload@),
            None => None,
        }
    }

    /// All three startup records have been seen.
    pub open spec fn spec_complete(&self) -> bool {
        self.team_info() is Some && self.config() is Some && self.field() is Some
    }

    /// An empty collector: nothing seen yet.
    pub fn new() -> (r: Self)
        ensures
            r.team_info() is None,
            r.config() is None,
            r.field() is None,
    {
        StartingInfoCollector {
            controllable_team_info: None,
            match_configuration: None,
            field_info: None,
        }
    }

    /// Observes one incoming packet: a startup record takes (or replaces)
    /// its slot; every other packet is ignored — the handshake waits only
    /// for the three startup records.
    pub fn offer(&mut self, p: Packet)
        ensures
            match p {
                Packet::ControllableTeamInfo(ti) => final(self).team_info() == Some(ti@) && final(
                    self).config() == old(self).config() && final(self).field() == old(
                    self).field(),
                Packet::MatchConfiguration(c) => final(self).config() == Some(c.payload@) && final(
                    self).team_info() == old(self).team_info() && final(self).field() == old(
                    self).field(),
                Packet::FieldInfo(f) => final(self).field() == Some(f.payload@) && final(
                    self).team_info() == old(self).team_info() && final(self).config() == old(
                    self).config(),
                _ => final(self).team_info() == old(self).team_info() && final(self).config()
                    == old(self).config() && final(self).field() == old(self).field(),
            },
    {
        match p {
            Packet::ControllableTeamInfo(ti) => {
                self.controllable_team_info = Some(ti);
            },
            Packet::MatchConfiguration(c) => {
                self.match_configuration = Some(c);
            },
            Packet::FieldInfo(f) => {
                self.field_info = Some(f);
            },
            _ => {},
        }
    }

    /// Whether all three startup records have been seen — the condition on
    /// which the handshake's blocking loop ends.
    pub fn complete(&self) -> (r: bool)
        ensures
            r == self.spec_complete(),
    {
        self.controllable_team_info.is_some() && self.match_configuration.is_some()
            && self.field_info.is_some()
    }

    /// Hands the three records over once all have been seen; nothing
    /// before that.
    pub fn finish(self) -> (r: Option<StartingInfo>)
        ensures
            match r {
                Some(info) => self.spec_complete() && Some(info.controllable_team_info@)
                    == self.team_info() && Some(info.match_configuration.payload@) == self.config()
                    && Some(info.field_info.payload@) == self.field(),
                None => !self.spec_complete(),
            },
    {
        match (self.controllable_team_info, self.match_configuration, self.field_info) {
            (Some(ti), Some(mc), Some(fi)) => Some(StartingInfo {
                controllable_team_info: ti,
                match_configuration: mc,
                field_info: fi,
            }),
            _ => None,
        }
    }
}

} // verus!
