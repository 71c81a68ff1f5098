//! The frame codec: `[2-byte big-endian tag][2-byte big-endian length]
//! [length bytes of payload]`, one frame per packet, and batches of frames
//! concatenated so that a whole tick's output is one contiguous byte run.

use vstd::prelude::*;
use crate::bytes::{spec_u16_be, spec_u16_of_be, push_u16_be, u16_from_be};
use crate::packet::{Packet, RLBotError, spec_data_type, spec_payload, spec_decode};
use crate::bytes::lemma_u16_be_round_trip;
use crate::schema::{lemma_connection_settings_payload_len, lemma_connection_settings_round_trip,
    lemma_team_info_payload_len, lemma_team_info_round_trip};

verus! {

/// The frame a packet occupies on the wire.
pub open spec fn spec_frame(p: &Packet) -> Seq<u8> {
    spec_u16_be(spec_data_type(p)) + spec_u16_be(spec_payload(p).len() as u16) + spec_payload(p)
}

/// The frames of a batch of packets, concatenated in order.
pub open spec fn spec_frames(ps: Seq<Packet>) -> Seq<u8>
    decreases ps.len(),
{
    if ps.len() == 0 {
        Seq::empty()
    } else {
        spec_frames(ps.drop_last()) + spec_frame(&ps.last())
    }
}

/// Every packet of the batch fits the 16-bit payload ceiling.
pub open spec fn all_fit(ps: Seq<Packet>) -> bool {
    forall|i: int| 0 <= i < ps.len() ==> (#[trigger] spec_payload(&ps[i])).len() <= 65535
}

/// The frame found at position `pos` of a byte run: its tag, its payload
/// and the position just past it. Nothing when the run is too short.
pub open spec fn spec_frame_at(b: Seq<u8>, pos: int) -> Option<(u16, Seq<u8>, int)> {
    if pos + 4 <= b.len() {
        let tag = spec_u16_of_be(b[pos], b[pos + 1]);
        let len = spec_u16_of_be(b[pos + 2], b[pos + 3]) as int;
        if pos + 4 + len <= b.len() {
            Some((tag, b.subrange(pos + 4, pos + 4 + len), pos + 4 + len))
        } else {
            None
        }
    } else {
        None
    }
}

/// Appends the frame of one packet to `out`, or rejects an oversized
/// payload before any of its bytes are produced.
pub fn encode_packet_into(p: &Packet, out: &mut Vec<u8>) -> (r: Result<(), RLBotError>)
    ensures
        match r {
            Ok(()) => spec_payload(p).len() <= 65535 && final(out)@ == old(out)@ + spec_frame(p),
            Err(e) => e == RLBotError::PayloadTooLarge && spec_payload(p).len() > 65535 && final(
                out)@ == old(out)@,
        },
{
    let len = match p.payload_len() {
        Some(l) => l,
        None => {
            return Err(RLBotError::PayloadTooLarge);
        },
    };
    push_u16_be(out, p.data_type());
    push_u16_be(out, len as u16);
    let mut payload = p.build();
    out.append(&mut payload);
    proof {
        assert(out@ =~= old(out)@ + spec_frame(p));
    }
    Ok(())
}

/// Encodes one packet as one frame, or rejects an oversized payload.
pub fn encode_packet(p: &Packet) -> (r: Result<Vec<u8>, RLBotError>)
    ensures
        match r {
            Ok(bytes) => spec_payload(p).len() <= 65535 && bytes@ == spec_frame(p),
            Err(e) => e == RLBotError::PayloadTooLarge && spec_payload(p).len() > 65535,
        },
{
    let mut out: Vec<u8> = Vec::new();
    match encode_packet_into(p, &mut out) {
        Ok(()) => Ok(out),
        Err(e) => Err(e),
    }
}

/// Encodes a batch of packets as one contiguous run of frames, in order —
/// what turns a tick's worth of responses into a single write. Rejects the
/// whole batch when any payload is oversized, before any write could
/// happen.
#[verifier::loop_isolation(false)]
pub fn encode_batch(ps: &Vec<Packet>) -> (r: Result<Vec<u8>, RLBotError>)
    ensures
        match r {
            Ok(bytes) => all_fit(ps@) && bytes@ == spec_frames(ps@),
            Err(e) => e == RLBotError::PayloadTooLarge && !all_fit(ps@),
        },
{
    let mut out: Vec<u8> = Vec::new();
    let mut i: usize = 0;
    while i < ps.len()
        invariant
            i <= ps@.len(),
            out@ == spec_frames(ps@.take(i as int)),
            forall|k: int| 0 <= k < i ==> (#[trigger] spec_payload(&ps@[k])).len() <= 65535,
        decreases ps@.len() - i as int,
    {
        match encode_packet_into(&ps[i], &mut out) {
            Ok(()) => {
                proof {
                    assert(ps@.take(i as int + 1).drop_last() =~= ps@.take(i as int));
                    assert(ps@.take(i as int + 1).last() == ps@[i as int]);
                }
            },
            Err(e) => {
                return Err(e);
            },
        }
        i = i + 1;
    }
    proof {
        assert(ps@.take(i as int) =~= ps@);
    }
    Ok(out)
}


/// Round trip: for every packet whose payload fits the 16-bit frame
/// ceiling, the encoded frame is read back as exactly one frame holding
/// the packet's tag and payload, and decoding that tag and payload
/// reproduces the packet's observable fields exactly.
pub proof fn lemma_packet_round_trip(p: &Packet)
    requires
        spec_payload(p).len() <= 65535,
    ensures
        spec_frame_at(spec_frame(p), 0) == Some(
            (spec_data_type(p), spec_payload(p), spec_frame(p).len() as int),
        ),
        spec_decode(spec_data_type(p), spec_payload(p)) == Some(p@),
{
    let f = spec_frame(p);
    let tag = spec_data_type(p);
    let pl = spec_payload(p);
    let len16 = pl.len() as u16;
    lemma_u16_be_round_trip(tag);
    lemma_u16_be_round_trip(len16);
    assert(f.len() == 4 + pl.len());
    assert(f[0] == crate::bytes::spec_u16_be(tag)[0] && f[1] == crate::bytes::spec_u16_be(tag)[1]);
    assert(f[2] == crate::bytes::spec_u16_be(len16)[0] && f[3] == crate::bytes::spec_u16_be(
        len16)[1]);
    assert(crate::bytes::spec_u16_of_be(f[0], f[1]) == tag);
    assert(crate::bytes::spec_u16_of_be(f[2], f[3]) == len16);
    assert(len16 as int == pl.len() as int);
    assert(f.subrange(4, 4 + pl.len() as int) =~= pl);

    match p {
        Packet::ConnectionSettings(cs) => {
            lemma_connection_settings_payload_len(cs@);
            lemma_connection_settings_round_trip(cs@);
        },
        Packet::ControllableTeamInfo(ti) => {
            lemma_team_info_payload_len(ti.team, ti.controllables@);
            lemma_team_info_round_trip(ti.team, ti.controllables@);
        },
        _ => {},
    }
}

/// Reads a frame header: the wire tag and the payload length, big-endian.
pub fn parse_header(b0: u8, b1: u8, b2: u8, b3: u8) -> (r: (u16, u16))
    ensures
        r.0 == spec_u16_of_be(b0, b1),
        r.1 == spec_u16_of_be(b2, b3),
{
    (u16_from_be(b0, b1), u16_from_be(b2, b3))
}

} // verus!
