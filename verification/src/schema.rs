//! Verified codec for the two handshake records whose contents the runtime
//! itself reads or writes: `ConnectionSettings` (built and sent by the
//! client) and `ControllableTeamInfo` (received and read by the client).
//!
//! Payloads use the table layout of the interface-description format that
//! the protocol's records are encoded in: a payload starts with an offset to
//! a root table; a table starts with an offset back to its dispatch table
//! ("vtable"), which maps field slots to byte offsets inside the table; a
//! missing slot means the field holds its default. Strings and vectors are
//! length-prefixed and reached through relative offsets. All scalars are
//! little-endian.
//!
//! The reader follows arbitrary offsets defensively and accepts any
//! conforming payload; the writer emits one fixed layout. Both are specified
//! against spec-level functions, and the writer's output is proved to read
//! back to the record it was built from.

use vstd::prelude::*;
use vstd::utf8::{decode_utf8, encode_utf8, valid_utf8};
use crate::bytes::{le16, le32, sle32, u16le, u32le, i32le, read_u16_le, read_u32_le, read_i32_le,
    byte_at, push_u16_le, push_u32_le, push_i32_le, lemma_le32_of_i32le};
use crate::records::{ConnectionSettings, ControllableInfo, ControllableTeamInfo};

verus! {

/// Payloads longer than the 16-bit frame ceiling never appear on the wire,
/// and the reader rejects them outright.
pub const MAX_PAYLOAD_LEN: usize = 65535;

/// The byte encoding of a boolean field.
pub open spec fn bool_byte(v: bool) -> u8 {
    if v {
        1
    } else {
        0
    }
}

/// Position of the root table of payload `b`, or -1 when the payload is not
/// even large enough to hold the root offset and the table's vtable offset.
pub open spec fn spec_root_table(b: Seq<u8>) -> int {
    if b.len() < 4 || b.len() > MAX_PAYLOAD_LEN {
        -1
    } else {
        let t = le32(b, 0) as int;
        if t + 4 <= b.len() {
            t
        } else {
            -1
        }
    }
}

/// Position of the vtable of the table at `t`, or -1 when its offset or
/// length leaves the payload.
pub open spec fn spec_vtable(b: Seq<u8>, t: int) -> int {
    let v = t - sle32(b, t) as int;
    if 0 <= v && v + 4 <= b.len() {
        let vlen = le16(b, v) as int;
        if 4 <= vlen && v + vlen <= b.len() {
            v
        } else {
            -1
        }
    } else {
        -1
    }
}

/// Table-relative byte offset of field slot `i` per the vtable at `v`;
/// 0 when the slot is missing, which means the field holds its default.
pub open spec fn spec_field_off(b: Seq<u8>, v: int, i: int) -> int {
    let vlen = le16(b, v) as int;
    if 4 + 2 * i + 2 <= vlen {
        le16(b, v + 4 + 2 * i) as int
    } else {
        0
    }
}

/// A boolean field of the table at `t`: absent means false.
pub open spec fn spec_bool_field(b: Seq<u8>, t: int, off: int) -> Option<bool> {
    if off == 0 {
        Some(false)
    } else if t + off + 1 <= b.len() {
        Some(b[t + off] != 0)
    } else {
        None
    }
}

/// An unsigned 32-bit field of the table at `t`: absent means 0.
pub open spec fn spec_u32_field(b: Seq<u8>, t: int, off: int) -> Option<u32> {
    if off == 0 {
        Some(0)
    } else if t + off + 4 <= b.len() {
        Some(le32(b, t + off))
    } else {
        None
    }
}

/// A signed 32-bit field of the table at `t`: absent means 0.
pub open spec fn spec_i32_field(b: Seq<u8>, t: int, off: int) -> Option<i32> {
    if off == 0 {
        Some(0)
    } else if t + off + 4 <= b.len() {
        Some(sle32(b, t + off))
    } else {
        None
    }
}

/// The bytes of the length-prefixed string whose relative offset is stored
/// at position `p`.
pub open spec fn spec_string_at(b: Seq<u8>, p: int) -> Option<Seq<u8>> {
    if p + 4 <= b.len() {
        let sp = p + le32(b, p) as int;
        if sp + 4 <= b.len() {
            let l = le32(b, sp) as int;
            if sp + 4 + l <= b.len() {
                Some(b.subrange(sp + 4, sp + 4 + l))
            } else {
                None
            }
        } else {
            None
        }
    } else {
        None
    }
}

/// What any conforming `ConnectionSettings` payload parses to: the identity
/// string (field 0) and the three capability flags (fields 1 to 3).
pub open spec fn spec_parse_connection_settings(b: Seq<u8>) -> Option<(Seq<char>, bool, bool, bool)> {
    let t = spec_root_table(b);
    if t < 0 {
        None
    } else {
        let v = spec_vtable(b, t);
        if v < 0 {
            None
        } else {
            let f0 = spec_field_off(b, v, 0);
            let id_bytes = if f0 == 0 {
                Some(Seq::<u8>::empty())
            } else {
                spec_string_at(b, t + f0)
            };
            let wbp = spec_bool_field(b, t, spec_field_off(b, v, 1));
            let wc = spec_bool_field(b, t, spec_field_off(b, v, 2));
            let cbm = spec_bool_field(b, t, spec_field_off(b, v, 3));
            if id_bytes is Some && wbp is Some && wc is Some && cbm is Some {
                let bs = id_bytes.unwrap();
                if valid_utf8(bs) {
                    Some((decode_utf8(bs), wbp.unwrap(), wc.unwrap(), cbm.unwrap()))
                } else {
                    None
                }
            } else {
                None
            }
        }
    }
}

/// The one layout the writer emits for `ConnectionSettings`: root offset,
/// vtable, table (string offset, three flag bytes, one padding byte), then
/// the length-prefixed identity string with its trailing NUL.
pub open spec fn spec_connection_settings_payload(v: (Seq<char>, bool, bool, bool)) -> Seq<u8> {
    let s = encode_utf8(v.0);
    u32le(16) + u16le(12) + u16le(12) + u16le(4) + u16le(8) + u16le(9) + u16le(10) + u32le(12)
        + u32le(8) + seq![bool_byte(v.1), bool_byte(v.2), bool_byte(v.3), 0u8]
        + u32le(s.len() as u32) + s + seq![0u8]
}

/// Turns bytes into a string exactly when they are UTF-8.
///
/// Relies on `String::from_utf8`: it succeeds if and only if the input is
/// valid UTF-8, and the resulting string holds the decoded characters.
#[verifier::external_body]
fn vec_to_string(v: Vec<u8>) -> (r: Option<String>)
    ensures
        match r {
            Some(s) => valid_utf8(v@) && s@ == decode_utf8(v@),
            None => !valid_utf8(v@),
        },
{
    String::from_utf8(v).ok()
}

/// Finds the root table of a payload, per `spec_root_table`.
fn find_root_table(b: &[u8]) -> (r: Option<usize>)
    ensures
        match r {
            Some(t) => spec_root_table(b@) == t as int,
            None => spec_root_table(b@) < 0,
        },
{
    let n = b.len();
    if n < 4 || n > MAX_PAYLOAD_LEN {
        return None;
    }
    let t32 = read_u32_le(b, 0);
    if t32 as u64 > (n - 4) as u64 {
        return None;
    }
    Some(t32 as usize)
}

/// Finds the vtable of the table at `t`, per `spec_vtable`.
fn find_vtable(b: &[u8], t: usize) -> (r: Option<usize>)
    requires
        t + 4 <= b@.len(),
        b@.len() <= MAX_PAYLOAD_LEN,
    ensures
        match r {
            Some(v) => spec_vtable(b@, t as int) == v as int,
            None => spec_vtable(b@, t as int) < 0,
        },
{
    let n = b.len();
    let soff = read_i32_le(b, t);
    let v64: i64 = t as i64 - soff as i64;
    if v64 < 0 || v64 + 4 > n as i64 {
        return None;
    }
    let v = v64 as usize;
    let vlen = read_u16_le(b, v);
    if vlen < 4 || (vlen as usize) > n - v {
        return None;
    }
    Some(v)
}

/// Reads the table-relative offset of field slot `i`, per `spec_field_off`.
fn field_off(b: &[u8], v: usize, i: usize) -> (r: u16)
    requires
        v + 4 <= b@.len(),
        b@.len() <= MAX_PAYLOAD_LEN,
        4 <= le16(b@, v as int),
        v + le16(b@, v as int) <= b@.len(),
        i <= 100,
    ensures
        r as int == spec_field_off(b@, v as int, i as int),
{
    let vlen = read_u16_le(b, v);
    if 4 + 2 * i + 2 <= vlen as usize {
        read_u16_le(b, v + 4 + 2 * i)
    } else {
        0
    }
}

/// Reads a boolean field, per `spec_bool_field`.
fn bool_field(b: &[u8], t: usize, off: u16) -> (r: Option<bool>)
    requires
        t <= b@.len(),
        b@.len() <= MAX_PAYLOAD_LEN,
    ensures
        match r {
            Some(x) => spec_bool_field(b@, t as int, off as int) == Some(x),
            None => spec_bool_field(b@, t as int, off as int) is None,
        },
{
    if off == 0 {
        Some(false)
    } else if t + off as usize + 1 <= b.len() {
        Some(byte_at(b, t + off as usize) != 0)
    } else {
        None
    }
}

/// Reads an unsigned 32-bit field, per `spec_u32_field`.
fn u32_field(b: &[u8], t: usize, off: u16) -> (r: Option<u32>)
    requires
        t <= b@.len(),
        b@.len() <= MAX_PAYLOAD_LEN,
    ensures
        match r {
            Some(x) => spec_u32_field(b@, t as int, off as int) == Some(x),
            None => spec_u32_field(b@, t as int, off as int) is None,
        },
{
    if off == 0 {
        Some(0)
    } else if t + off as usize + 4 <= b.len() {
        Some(read_u32_le(b, t + off as usize))
    } else {
        None
    }
}

/// Reads a signed 32-bit field, per `spec_i32_field`.
fn i32_field(b: &[u8], t: usize, off: u16) -> (r: Option<i32>)
    requires
        t <= b@.len(),
        b@.len() <= MAX_PAYLOAD_LEN,
    ensures
        match r {
            Some(x) => spec_i32_field(b@, t as int, off as int) == Some(x),
            None => spec_i32_field(b@, t as int, off as int) is None,
        },
{
    if off == 0 {
        Some(0)
    } else if t + off as usize + 4 <= b.len() {
        Some(read_i32_le(b, t + off as usize))
    } else {
        None
    }
}

/// Reads the bytes of the string whose offset field sits at `p`, per
/// `spec_string_at`.
fn string_bytes_at(b: &[u8], p: usize) -> (r: Option<Vec<u8>>)
    requires
        p + 4 <= b@.len(),
        b@.len() <= MAX_PAYLOAD_LEN,
    ensures
        match r {
            Some(v) => spec_string_at(b@, p as int) == Some(v@),
            None => spec_string_at(b@, p as int) is None,
        },
{
    let n = b.len();
    let so = read_u32_le(b, p);
    if so as u64 > (n - 4 - p) as u64 {
        return None;
    }
    let sp = p + so as usize;
    let l = read_u32_le(b, sp);
    if l as u64 > (n - 4 - sp) as u64 {
        return None;
    }
    let s = vstd::slice::slice_subrange(b, sp + 4, sp + 4 + l as usize);
    Some(vstd::slice::slice_to_vec(s))
}

/// Parses a `ConnectionSettings` payload.
///
/// Succeeds with exactly the record that `spec_parse_connection_settings`
/// gives, and fails exactly when that parse fails.
pub fn parse_connection_settings(b: &[u8]) -> (r: Option<ConnectionSettings>)
    ensures
        match r {
            Some(cs) => spec_parse_connection_settings(b@) == Some(cs@),
            None => spec_parse_connection_settings(b@) is None,
        },
{
    let t = match find_root_table(b) {
        Some(t) => t,
        None => {
            return None;
        },
    };
    let v = match find_vtable(b, t) {
        Some(v) => v,
        None => {
            return None;
        },
    };
    let f0 = field_off(b, v, 0);
    let id_bytes: Option<Vec<u8>> = if f0 == 0 {
        Some(Vec::new())
    } else if t + f0 as usize + 4 <= b.len() {
        string_bytes_at(b, t + f0 as usize)
    } else {
        None
    };
    let id_bytes = match id_bytes {
        Some(x) => x,
        None => {
            return None;
        },
    };
    let wbp = match bool_field(b, t, field_off(b, v, 1)) {
        Some(x) => x,
        None => {
            return None;
        },
    };
    let wc = match bool_field(b, t, field_off(b, v, 2)) {
        Some(x) => x,
        None => {
            return None;
        },
    };
    let cbm = match bool_field(b, t, field_off(b, v, 3)) {
        Some(x) => x,
        None => {
            return None;
        },
    };
    let agent_id = match vec_to_string(id_bytes) {
        Some(s) => s,
        None => {
            return None;
        },
    };
    Some(ConnectionSettings {
        agent_id,
        wants_ball_predictions: wbp,
        wants_comms: wc,
        close_between_matches: cbm,
    })
}

/// Builds the canonical `ConnectionSettings` payload, per
/// `spec_connection_settings_payload`.
pub fn build_connection_settings(cs: &ConnectionSettings) -> (out: Vec<u8>)
    ensures
        out@ == spec_connection_settings_payload(cs@),
{
    let mut out: Vec<u8> = Vec::new();
    push_u32_le(&mut out, 16);
    push_u16_le(&mut out, 12);
    push_u16_le(&mut out, 12);
    push_u16_le(&mut out, 4);
    push_u16_le(&mut out, 8);
    push_u16_le(&mut out, 9);
    push_u16_le(&mut out, 10);
    push_u32_le(&mut out, 12);
    push_u32_le(&mut out, 8);
    out.push(if cs.wants_ball_predictions { 1 } else { 0 });
    out.push(if cs.wants_comms { 1 } else { 0 });
    out.push(if cs.close_between_matches { 1 } else { 0 });
    out.push(0);
    let s = cs.agent_id.as_str().as_bytes();
    push_u32_le(&mut out, s.len() as u32);
    out.extend_from_slice(s);
    out.push(0);
    proof {
        assert(s@ == encode_utf8(cs.agent_id@));
        assert(out@ =~= spec_connection_settings_payload(cs@));
    }
    out
}


/// One element of the controllables vector: the table whose relative offset
/// is stored at position `q`.
pub open spec fn spec_parse_elem(b: Seq<u8>, q: int) -> Option<ControllableInfo> {
    if q + 4 <= b.len() {
        let t = q + le32(b, q) as int;
        if t + 4 <= b.len() {
            let v = spec_vtable(b, t);
            if v < 0 {
                None
            } else {
                let idx = spec_u32_field(b, t, spec_field_off(b, v, 0));
                let sp = spec_i32_field(b, t, spec_field_off(b, v, 1));
                if idx is Some && sp is Some {
                    Some(ControllableInfo { index: idx.unwrap(), spawn_id: sp.unwrap() })
                } else {
                    None
                }
            }
        } else {
            None
        }
    } else {
        None
    }
}

/// The first `i` elements of the vector whose offsets start at `base`.
pub open spec fn spec_first_elems(b: Seq<u8>, base: int, i: int) -> Option<Seq<ControllableInfo>>
    decreases i,
{
    if i <= 0 {
        Some(Seq::empty())
    } else {
        match spec_first_elems(b, base, i - 1) {
            None => None,
            Some(rest) => match spec_parse_elem(b, base + 4 * (i - 1)) {
                None => None,
                Some(e) => Some(rest.push(e)),
            },
        }
    }
}

/// A failed element keeps the whole vector parse failed.
pub proof fn lemma_first_elems_none(b: Seq<u8>, base: int, i: int, n: int)
    requires
        i <= n,
        spec_first_elems(b, base, i) is None,
    ensures
        spec_first_elems(b, base, n) is None,
    decreases n - i,
{
    if i < n {
        lemma_first_elems_none(b, base, i + 1, n);
    }
}

/// What any conforming `ControllableTeamInfo` payload parses to: the team
/// number (field 0) and the vector of controllables (field 1).
pub open spec fn spec_parse_team_info(b: Seq<u8>) -> Option<(u32, Seq<ControllableInfo>)> {
    let t = spec_root_table(b);
    if t < 0 {
        None
    } else {
        let v = spec_vtable(b, t);
        if v < 0 {
            None
        } else {
            let team = spec_u32_field(b, t, spec_field_off(b, v, 0));
            if team is None {
                None
            } else {
                let f1 = spec_field_off(b, v, 1);
                if f1 == 0 {
                    Some((team.unwrap(), Seq::empty()))
                } else if t + f1 + 4 <= b.len() {
                    let vp = t + f1 + le32(b, t + f1) as int;
                    if vp + 4 <= b.len() {
                        let n = le32(b, vp) as int;
                        if vp + 4 + 4 * n <= b.len() {
                            match spec_first_elems(b, vp + 4, n) {
                                None => None,
                                Some(es) => Some((team.unwrap(), es)),
                            }
                        } else {
                            None
                        }
                    } else {
                        None
                    }
                } else {
                    None
                }
            }
        }
    }
}

/// The offset column of the canonical controllables vector, from element `i`
/// on: element `i`'s table sits `8 + 4*n + 8*i` bytes past its own offset.
pub open spec fn spec_ti_offsets(n: int, i: int) -> Seq<u8>
    decreases n - i,
{
    if i >= n {
        Seq::empty()
    } else {
        u32le((8 + 4 * n + 8 * i) as u32) + spec_ti_offsets(n, i + 1)
    }
}

/// The element tables of the canonical controllables vector, from element
/// `i` on: each is a vtable offset, the slot index and the spawn identity.
pub open spec fn spec_ti_tables(elems: Seq<ControllableInfo>, i: int) -> Seq<u8>
    decreases elems.len() - i,
{
    if i >= elems.len() {
        Seq::empty()
    } else {
        u32le((8 + 12 * i) as u32) + u32le(elems[i].index) + i32le(elems[i].spawn_id)
            + spec_ti_tables(elems, i + 1)
    }
}

/// The one layout the writer emits for `ControllableTeamInfo`: root offset,
/// root vtable, padding, root table (team, vector offset), the vector's
/// length and offset column, one shared element vtable, then the element
/// tables.
pub open spec fn spec_team_info_payload(team: u32, elems: Seq<ControllableInfo>) -> Seq<u8> {
    let n = elems.len() as int;
    u32le(16) + u16le(8) + u16le(12) + u16le(4) + u16le(8) + seq![0u8, 0u8, 0u8, 0u8] + u32le(12)
        + u32le(team) + u32le(4) + u32le(n as u32) + spec_ti_offsets(n, 0) + u16le(8) + u16le(12)
        + u16le(4) + u16le(8) + spec_ti_tables(elems, 0)
}

/// Parses one element of the controllables vector, per `spec_parse_elem`.
fn parse_elem(b: &[u8], q: usize) -> (r: Option<ControllableInfo>)
    requires
        q + 4 <= b@.len(),
        b@.len() <= MAX_PAYLOAD_LEN,
    ensures
        match r {
            Some(e) => spec_parse_elem(b@, q as int) == Some(e),
            None => spec_parse_elem(b@, q as int) is None,
        },
{
    let n = b.len();
    let to = read_u32_le(b, q);
    if to as u64 > (n - 4 - q) as u64 {
        return None;
    }
    let t = q + to as usize;
    let v = match find_vtable(b, t) {
        Some(v) => v,
        None => {
            return None;
        },
    };
    let idx = match u32_field(b, t, field_off(b, v, 0)) {
        Some(x) => x,
        None => {
            return None;
        },
    };
    let sp = match i32_field(b, t, field_off(b, v, 1)) {
        Some(x) => x,
        None => {
            return None;
        },
    };
    Some(ControllableInfo { index: idx, spawn_id: sp })
}

/// Parses a `ControllableTeamInfo` payload.
///
/// Succeeds with exactly the record that `spec_parse_team_info` gives, and
/// fails exactly when that parse fails.
#[verifier::loop_isolation(false)]
pub fn parse_team_info(b: &[u8]) -> (r: Option<ControllableTeamInfo>)
    ensures
        match r {
            Some(ti) => spec_parse_team_info(b@) == Some(ti@),
            None => spec_parse_team_info(b@) is None,
        },
{
    let n = b.len();
    let t = match find_root_table(b) {
        Some(t) => t,
        None => {
            return None;
        },
    };
    let v = match find_vtable(b, t) {
        Some(v) => v,
        None => {
            return None;
        },
    };
    let team = match u32_field(b, t, field_off(b, v, 0)) {
        Some(x) => x,
        None => {
            return None;
        },
    };
    let f1 = field_off(b, v, 1);
    if f1 == 0 {
        return Some(ControllableTeamInfo { team, controllables: Vec::new() });
    }
    if t + f1 as usize + 4 > n {
        return None;
    }
    let p = t + f1 as usize;
    let vo = read_u32_le(b, p);
    if vo as u64 > (n - 4 - p) as u64 {
        return None;
    }
    let vp = p + vo as usize;
    let cnt = read_u32_le(b, vp);
    if (cnt as u64) * 4 > (n - 4 - vp) as u64 {
        return None;
    }
    let base = vp + 4;
    let mut out: Vec<ControllableInfo> = Vec::new();
    let mut i: usize = 0;
    while i < cnt as usize
        invariant
            i <= cnt,
            base + 4 * (cnt as int) <= b@.len(),
            b@.len() <= MAX_PAYLOAD_LEN,
            spec_first_elems(b@, base as int, i as int) == Some(out@),
        decreases cnt as int - i as int,
    {
        let e = match parse_elem(b, base + 4 * i) {
            Some(e) => e,
            None => {
                proof {
                    lemma_first_elems_none(b@, base as int, i as int + 1, cnt as int);
                    assert(spec_first_elems(b@, base as int, cnt as int) is None);
                    assert(spec_parse_team_info(b@) is None);
                }
                return None;
            },
        };
        out.push(e);
        i = i + 1;
    }
    Some(ControllableTeamInfo { team, controllables: out })
}

/// Builds the canonical `ControllableTeamInfo` payload, per
/// `spec_team_info_payload`. The element count is bounded so that the
/// payload stays under the 16-bit frame ceiling.
#[verifier::loop_isolation(false)]
pub fn build_team_info(team: u32, controllables: &Vec<ControllableInfo>) -> (out: Vec<u8>)
    requires
        controllables@.len() <= 4093,
    ensures
        out@ == spec_team_info_payload(team, controllables@),
{
    let n = controllables.len();
    let ghost gn = n as int;
    let mut out: Vec<u8> = Vec::new();
    push_u32_le(&mut out, 16);
    push_u16_le(&mut out, 8);
    push_u16_le(&mut out, 12);
    push_u16_le(&mut out, 4);
    push_u16_le(&mut out, 8);
    out.push(0);
    out.push(0);
    out.push(0);
    out.push(0);
    push_u32_le(&mut out, 12);
    push_u32_le(&mut out, team);
    push_u32_le(&mut out, 4);
    push_u32_le(&mut out, n as u32);
    let ghost header = out@;
    let mut i: usize = 0;
    while i < n
        invariant
            i <= n,
            n == controllables@.len(),
            n <= 4093,
            out@ + spec_ti_offsets(gn, i as int) == header + spec_ti_offsets(gn, 0),
        decreases n as int - i as int,
    {
        push_u32_le(&mut out, (8 + 4 * n + 8 * i) as u32);
        proof {
            vstd::bytes::lemma_auto_spec_u32_to_from_le_bytes();
            assert(spec_ti_offsets(gn, i as int) == u32le((8 + 4 * gn + 8 * (i as int)) as u32)
                + spec_ti_offsets(gn, i as int + 1));
            assert(out@ + spec_ti_offsets(gn, i as int + 1) =~= header + spec_ti_offsets(gn, 0));
        }
        i = i + 1;
    }
    proof {
        assert(spec_ti_offsets(gn, gn) == Seq::<u8>::empty());
        assert(out@ + Seq::<u8>::empty() =~= out@);
        assert(out@ =~= header + spec_ti_offsets(gn, 0));
    }
    push_u16_le(&mut out, 8);
    push_u16_le(&mut out, 12);
    push_u16_le(&mut out, 4);
    push_u16_le(&mut out, 8);
    let ghost mid = out@;
    let mut j: usize = 0;
    while j < n
        invariant
            j <= n,
            n == controllables@.len(),
            n <= 4093,
            out@ + spec_ti_tables(controllables@, j as int) == mid + spec_ti_tables(
                controllables@, 0),
        decreases n as int - j as int,
    {
        push_u32_le(&mut out, (8 + 12 * j) as u32);
        let e = controllables[j];
        push_u32_le(&mut out, e.index);
        push_i32_le(&mut out, e.spawn_id);
        proof {
            vstd::bytes::lemma_auto_spec_u32_to_from_le_bytes();
            assert(spec_ti_tables(controllables@, j as int) == u32le((8 + 12 * (j as int)) as u32)
                + u32le(controllables@[j as int].index)
                + i32le(controllables@[j as int].spawn_id)
                + spec_ti_tables(controllables@, j as int + 1));
            assert(out@ + spec_ti_tables(controllables@, j as int + 1) =~= mid + spec_ti_tables(
                controllables@, 0));
        }
        j = j + 1;
    }
    proof {
        vstd::bytes::lemma_auto_spec_u16_to_from_le_bytes();
        vstd::bytes::lemma_auto_spec_u32_to_from_le_bytes();
        assert(spec_ti_tables(controllables@, gn) == Seq::<u8>::empty());
        assert(out@ + Seq::<u8>::empty() =~= out@);
        assert(out@ =~= mid + spec_ti_tables(controllables@, 0));
        assert(out@ =~= spec_team_info_payload(team, controllables@));
    }
    out
}


pub proof fn lemma_ti_offsets_len(n: int, i: int)
    requires
        0 <= i <= n,
    ensures
        spec_ti_offsets(n, i).len() == 4 * (n - i),
    decreases n - i,
{
    vstd::bytes::lemma_auto_spec_u32_to_from_le_bytes();
    if i < n {
        lemma_ti_offsets_len(n, i + 1);
    }
}

pub proof fn lemma_ti_tables_len(elems: Seq<ControllableInfo>, i: int)
    requires
        0 <= i <= elems.len(),
    ensures
        spec_ti_tables(elems, i).len() == 12 * (elems.len() - i),
    decreases elems.len() - i,
{
    vstd::bytes::lemma_auto_spec_u32_to_from_le_bytes();
    if i < elems.len() {
        lemma_ti_tables_len(elems, i + 1);
    }
}

/// The canonical `ControllableTeamInfo` payload is 40 bytes plus 16 per
/// element.
pub proof fn lemma_team_info_payload_len(team: u32, elems: Seq<ControllableInfo>)
    ensures
        spec_team_info_payload(team, elems).len() == 40 + 16 * elems.len(),
{
    vstd::bytes::lemma_auto_spec_u16_to_from_le_bytes();
    vstd::bytes::lemma_auto_spec_u32_to_from_le_bytes();
    lemma_ti_offsets_len(elems.len() as int, 0);
    lemma_ti_tables_len(elems, 0);
}

/// The canonical `ConnectionSettings` payload is 33 bytes plus the encoded
/// identity string.
pub proof fn lemma_connection_settings_payload_len(v: (Seq<char>, bool, bool, bool))
    ensures
        spec_connection_settings_payload(v).len() == 33 + encode_utf8(v.0).len(),
{
    vstd::bytes::lemma_auto_spec_u16_to_from_le_bytes();
    vstd::bytes::lemma_auto_spec_u32_to_from_le_bytes();
}


/// A subrange taken inside the middle piece of a three-piece
/// concatenation reads from that piece alone.
proof fn lemma_subrange_of_middle(pre: Seq<u8>, mid: Seq<u8>, post: Seq<u8>, x: int, y: int)
    requires
        0 <= x <= y <= mid.len(),
    ensures
        (pre + mid + post).subrange(pre.len() + x, pre.len() + y) == mid.subrange(x, y),
{
    assert((pre + mid + post).subrange(pre.len() + x, pre.len() + y) =~= mid.subrange(x, y));
}

/// Round trip: the canonical `ConnectionSettings` payload parses back to
/// the record it was built from, whenever the identity string leaves the
/// payload under the 16-bit frame ceiling.
pub proof fn lemma_connection_settings_round_trip(v: (Seq<char>, bool, bool, bool))
    requires
        encode_utf8(v.0).len() <= 65502,
    ensures
        spec_parse_connection_settings(spec_connection_settings_payload(v)) == Some(v),
{
    vstd::bytes::lemma_auto_spec_u16_to_from_le_bytes();
    vstd::bytes::lemma_auto_spec_u32_to_from_le_bytes();
    broadcast use vstd::utf8::encode_utf8_valid_utf8;
    broadcast use vstd::utf8::encode_utf8_decode_utf8;

    let b = spec_connection_settings_payload(v);
    let s = encode_utf8(v.0);
    let l = s.len() as int;
    lemma_connection_settings_payload_len(v);
    assert(b.len() == 33 + l);

    assert(b.subrange(0, 4) =~= u32le(16));
    assert(spec_root_table(b) == 16);
    assert(b.subrange(16, 20) =~= u32le(12));
    assert(le32(b, 16) == 12);
    assert(sle32(b, 16) == 12i32);
    assert(b.subrange(4, 6) =~= u16le(12));
    assert(le16(b, 4) == 12);
    assert(spec_vtable(b, 16) == 4);
    assert(b.subrange(8, 10) =~= u16le(4));
    assert(spec_field_off(b, 4, 0) == 4);
    assert(b.subrange(10, 12) =~= u16le(8));
    assert(spec_field_off(b, 4, 1) == 8);
    assert(b.subrange(12, 14) =~= u16le(9));
    assert(spec_field_off(b, 4, 2) == 9);
    assert(b.subrange(14, 16) =~= u16le(10));
    assert(spec_field_off(b, 4, 3) == 10);

    assert(b.subrange(20, 24) =~= u32le(8));
    assert(le32(b, 20) == 8);
    assert(b.subrange(28, 32) =~= u32le(l as u32));
    assert(le32(b, 28) == l as u32);
    assert(le32(b, 28) as int == l);
    assert(b.subrange(32, 32 + l) =~= s);
    assert(spec_string_at(b, 20) == Some(s));

    assert(b[24] == bool_byte(v.1));
    assert(b[25] == bool_byte(v.2));
    assert(b[26] == bool_byte(v.3));
    assert(spec_bool_field(b, 16, 8) == Some(v.1));
    assert(spec_bool_field(b, 16, 9) == Some(v.2));
    assert(spec_bool_field(b, 16, 10) == Some(v.3));

    assert(valid_utf8(s));
    assert(decode_utf8(s) == v.0);
    assert(spec_parse_connection_settings(b) == Some(v));
}


proof fn lemma_offsets_read(n: int, i0: int, i: int)
    requires
        0 <= i0 <= i < n,
    ensures
        spec_ti_offsets(n, i0).subrange(4 * (i - i0), 4 * (i - i0) + 4) == u32le(
            (8 + 4 * n + 8 * i) as u32),
    decreases i - i0,
{
    vstd::bytes::lemma_auto_spec_u32_to_from_le_bytes();
    lemma_ti_offsets_len(n, i0);
    lemma_ti_offsets_len(n, i0 + 1);
    if i == i0 {
        assert(spec_ti_offsets(n, i0).subrange(0, 4) =~= u32le((8 + 4 * n + 8 * i0) as u32));
    } else {
        lemma_offsets_read(n, i0 + 1, i);
        assert(spec_ti_offsets(n, i0).subrange(4 * (i - i0), 4 * (i - i0) + 4) =~= spec_ti_offsets(
            n, i0 + 1).subrange(4 * (i - i0 - 1), 4 * (i - i0 - 1) + 4));
    }
}

proof fn lemma_tables_read(elems: Seq<ControllableInfo>, i0: int, i: int)
    requires
        0 <= i0 <= i < elems.len(),
    ensures
        spec_ti_tables(elems, i0).subrange(12 * (i - i0), 12 * (i - i0) + 4) == u32le(
            (8 + 12 * i) as u32),
        spec_ti_tables(elems, i0).subrange(12 * (i - i0) + 4, 12 * (i - i0) + 8) == u32le(
            elems[i].index),
        spec_ti_tables(elems, i0).subrange(12 * (i - i0) + 8, 12 * (i - i0) + 12) == i32le(
            elems[i].spawn_id),
    decreases i - i0,
{
    vstd::bytes::lemma_auto_spec_u32_to_from_le_bytes();
    lemma_ti_tables_len(elems, i0);
    lemma_ti_tables_len(elems, i0 + 1);
    if i == i0 {
        assert(spec_ti_tables(elems, i0).subrange(0, 4) =~= u32le((8 + 12 * i0) as u32));
        assert(spec_ti_tables(elems, i0).subrange(4, 8) =~= u32le(elems[i0].index));
        assert(spec_ti_tables(elems, i0).subrange(8, 12) =~= i32le(elems[i0].spawn_id));
    } else {
        lemma_tables_read(elems, i0 + 1, i);
        assert(spec_ti_tables(elems, i0).subrange(12 * (i - i0), 12 * (i - i0) + 4)
            =~= spec_ti_tables(elems, i0 + 1).subrange(12 * (i - i0 - 1), 12 * (i - i0 - 1) + 4));
        assert(spec_ti_tables(elems, i0).subrange(12 * (i - i0) + 4, 12 * (i - i0) + 8)
            =~= spec_ti_tables(elems, i0 + 1).subrange(12 * (i - i0 - 1) + 4, 12 * (i - i0 - 1)
            + 8));
        assert(spec_ti_tables(elems, i0).subrange(12 * (i - i0) + 8, 12 * (i - i0) + 12)
            =~= spec_ti_tables(elems, i0 + 1).subrange(12 * (i - i0 - 1) + 8, 12 * (i - i0 - 1)
            + 12));
    }
}

/// The canonical header piece of a `ControllableTeamInfo` payload.
spec fn spec_ti_header(team: u32, n: int) -> Seq<u8> {
    u32le(16) + u16le(8) + u16le(12) + u16le(4) + u16le(8) + seq![0u8, 0u8, 0u8, 0u8] + u32le(12)
        + u32le(team) + u32le(4) + u32le(n as u32)
}

/// The canonical element vtable piece.
spec fn spec_ti_evtable() -> Seq<u8> {
    u16le(8) + u16le(12) + u16le(4) + u16le(8)
}

proof fn lemma_ti_decompose(team: u32, elems: Seq<ControllableInfo>)
    ensures
        spec_team_info_payload(team, elems) == spec_ti_header(team, elems.len() as int)
            + spec_ti_offsets(elems.len() as int, 0) + (spec_ti_evtable() + spec_ti_tables(
            elems, 0)),
        spec_team_info_payload(team, elems) == (spec_ti_header(team, elems.len() as int)
            + spec_ti_offsets(elems.len() as int, 0)) + spec_ti_evtable() + spec_ti_tables(
            elems, 0),
        spec_team_info_payload(team, elems) == (spec_ti_header(team, elems.len() as int)
            + spec_ti_offsets(elems.len() as int, 0) + spec_ti_evtable()) + spec_ti_tables(
            elems, 0) + Seq::<u8>::empty(),
        spec_ti_header(team, elems.len() as int).len() == 32,
        spec_ti_evtable().len() == 8,
{
    vstd::bytes::lemma_auto_spec_u16_to_from_le_bytes();
    vstd::bytes::lemma_auto_spec_u32_to_from_le_bytes();
    let n = elems.len() as int;
    assert(spec_team_info_payload(team, elems) =~= spec_ti_header(team, n) + spec_ti_offsets(n, 0)
        + (spec_ti_evtable() + spec_ti_tables(elems, 0)));
    assert(spec_team_info_payload(team, elems) =~= (spec_ti_header(team, n) + spec_ti_offsets(n,
        0)) + spec_ti_evtable() + spec_ti_tables(elems, 0));
    assert(spec_team_info_payload(team, elems) =~= (spec_ti_header(team, n) + spec_ti_offsets(n, 0)
        + spec_ti_evtable()) + spec_ti_tables(elems, 0) + Seq::<u8>::empty());
}

proof fn lemma_parse_elem_canonical(team: u32, elems: Seq<ControllableInfo>, i: int)
    requires
        elems.len() <= 4093,
        0 <= i < elems.len(),
    ensures
        spec_parse_elem(spec_team_info_payload(team, elems), 32 + 4 * i) == Some(elems[i]),
{
    vstd::bytes::lemma_auto_spec_u16_to_from_le_bytes();
    vstd::bytes::lemma_auto_spec_u32_to_from_le_bytes();
    let n = elems.len() as int;
    let b = spec_team_info_payload(team, elems);
    lemma_team_info_payload_len(team, elems);
    lemma_ti_offsets_len(n, 0);
    lemma_ti_tables_len(elems, 0);
    lemma_ti_decompose(team, elems);
    let hd = spec_ti_header(team, n);
    let off = spec_ti_offsets(n, 0);
    let ev = spec_ti_evtable();
    let tb = spec_ti_tables(elems, 0);

    // the element's offset, read out of the offset column
    lemma_offsets_read(n, 0, i);
    lemma_subrange_of_middle(hd, off, ev + tb, 4 * i, 4 * i + 4);
    assert(b == hd + off + (ev + tb));
    assert(b.subrange(32 + 4 * i, 32 + 4 * i + 4) == off.subrange(4 * i, 4 * i + 4));
    crate::bytes::lemma_le32_of_u32le((8 + 4 * n + 8 * i) as u32);
    assert(le32(b, 32 + 4 * i) == (8 + 4 * n + 8 * i) as u32);
    assert(8 + 4 * n + 8 * i < 0x10000);
    assert(le32(b, 32 + 4 * i) as int == 8 + 4 * n + 8 * i);
    let t: int = 40 + 4 * n + 12 * i;
    assert(32 + 4 * i + le32(b, 32 + 4 * i) as int == t);

    // the element table's vtable offset, read out of the table column
    lemma_tables_read(elems, 0, i);
    lemma_subrange_of_middle(hd + off + ev, tb, Seq::<u8>::empty(), 12 * i, 12 * i + 4);
    assert((hd + off + ev).len() == 40 + 4 * n);
    assert(b == (hd + off + ev) + tb + Seq::<u8>::empty());
    assert(b.subrange(t, t + 4) == tb.subrange(12 * i, 12 * i + 4));
    crate::bytes::lemma_le32_of_u32le((8 + 12 * i) as u32);
    assert(le32(b, t) == (8 + 12 * i) as u32);
    assert(8 + 12 * i < 0x8000000);
    assert(sle32(b, t) == (8 + 12 * i) as i32);
    assert(sle32(b, t) as int == 8 + 12 * i);
    assert(t - sle32(b, t) as int == 32 + 4 * n);

    // the shared element vtable
    lemma_subrange_of_middle(hd + off, ev, tb, 0, 2);
    assert(ev.subrange(0, 2) =~= u16le(8));
    assert(le16(b, 32 + 4 * n) == 8);
    lemma_subrange_of_middle(hd + off, ev, tb, 4, 6);
    assert(ev.subrange(4, 6) =~= u16le(4));
    assert(le16(b, 32 + 4 * n + 4) == 4);
    lemma_subrange_of_middle(hd + off, ev, tb, 6, 8);
    assert(ev.subrange(6, 8) =~= u16le(8));
    assert(le16(b, 32 + 4 * n + 6) == 8);
    assert(spec_vtable(b, t) == 32 + 4 * n);
    assert(spec_field_off(b, 32 + 4 * n, 0) == 4);
    assert(spec_field_off(b, 32 + 4 * n, 1) == 8);

    // the two scalar fields
    lemma_subrange_of_middle(hd + off + ev, tb, Seq::<u8>::empty(), 12 * i + 4, 12 * i + 8);
    assert(b.subrange(t + 4, t + 8) == tb.subrange(12 * i + 4, 12 * i + 8));
    crate::bytes::lemma_le32_of_u32le(elems[i].index);
    assert(le32(b, t + 4) == elems[i].index);
    lemma_subrange_of_middle(hd + off + ev, tb, Seq::<u8>::empty(), 12 * i + 8, 12 * i + 12);
    lemma_le32_of_i32le(elems[i].spawn_id);
    assert(sle32(b, t + 8) == elems[i].spawn_id);
    assert(spec_u32_field(b, t, 4) == Some(elems[i].index));
    assert(spec_i32_field(b, t, 8) == Some(elems[i].spawn_id));
    assert(spec_parse_elem(b, 32 + 4 * i) == Some(elems[i]));
}

proof fn lemma_first_elems_canonical(team: u32, elems: Seq<ControllableInfo>, i: int)
    requires
        elems.len() <= 4093,
        0 <= i <= elems.len(),
    ensures
        spec_first_elems(spec_team_info_payload(team, elems), 32, i) == Some(elems.take(i)),
    decreases i,
{
    if i == 0 {
        assert(elems.take(0) =~= Seq::<ControllableInfo>::empty());
    } else {
        lemma_first_elems_canonical(team, elems, i - 1);
        lemma_parse_elem_canonical(team, elems, i - 1);
        assert(elems.take(i - 1).push(elems[i - 1]) =~= elems.take(i));
    }
}

/// Round trip: the canonical `ControllableTeamInfo` payload parses back to
/// the record it was built from, whenever the element count leaves the
/// payload under the 16-bit frame ceiling.
pub proof fn lemma_team_info_round_trip(team: u32, elems: Seq<ControllableInfo>)
    requires
        elems.len() <= 4093,
    ensures
        spec_parse_team_info(spec_team_info_payload(team, elems)) == Some((team, elems)),
{
    vstd::bytes::lemma_auto_spec_u16_to_from_le_bytes();
    vstd::bytes::lemma_auto_spec_u32_to_from_le_bytes();
    let n = elems.len() as int;
    let b = spec_team_info_payload(team, elems);
    lemma_team_info_payload_len(team, elems);
    lemma_ti_offsets_len(n, 0);
    lemma_ti_tables_len(elems, 0);
    lemma_ti_decompose(team, elems);

    assert(b.subrange(0, 4) =~= u32le(16));
    assert(spec_root_table(b) == 16);
    assert(b.subrange(16, 20) =~= u32le(12));
    assert(le32(b, 16) == 12);
    assert(sle32(b, 16) == 12i32);
    assert(b.subrange(4, 6) =~= u16le(8));
    assert(le16(b, 4) == 8);
    assert(spec_vtable(b, 16) == 4);
    assert(b.subrange(8, 10) =~= u16le(4));
    assert(spec_field_off(b, 4, 0) == 4);
    assert(b.subrange(10, 12) =~= u16le(8));
    assert(spec_field_off(b, 4, 1) == 8);

    assert(b.subrange(20, 24) =~= u32le(team));
    assert(spec_u32_field(b, 16, 4) == Some(team));
    assert(b.subrange(24, 28) =~= u32le(4));
    assert(le32(b, 24) == 4);
    assert(b.subrange(28, 32) =~= u32le(n as u32));
    assert(le32(b, 28) == n as u32);
    assert(le32(b, 28) as int == n);

    lemma_first_elems_canonical(team, elems, n);
    assert(elems.take(n) =~= elems);
    assert(spec_parse_team_info(b) == Some((team, elems)));
}

} // verus!
