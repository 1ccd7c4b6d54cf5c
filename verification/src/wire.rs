//! Decoder for the two fixed protocol-message schemas.
//!
//! Both schemas are ordinary protobuf wire-format messages. The
//! "server to client" schema carries a repeated rider-state field (number 8);
//! the "client to server" schema carries a single embedded rider-state field
//! (number 7). The rider-state sub-message carries the fields of
//! [`PlayerState`] under the numbers fixed by the protocol.
//!
//! Every decoder works on a half-open window `[i, end)` of a byte buffer and
//! is specified against a spec-level decoder of the same window, so decode
//! success, decode failure, and the decoded values are all pinned exactly.

use vstd::prelude::*;
use vstd::slice::slice_index_get;

use crate::player::PlayerState;

verus! {

/// A base-128 varint read from `[i, end)`: each byte contributes its low 7
/// bits, least significant group first, until a byte below 0x80 ends the
/// value; at most `fuel` bytes are consumed (the wire format caps a varint at
/// 10 bytes). Yields the value, truncated to 64 bits, and the position after
/// it, or nothing when the window ends or the cap is hit first.
pub open spec fn spec_varint(s: Seq<u8>, i: int, end: int, fuel: nat) -> Option<(u64, int)>
    decreases fuel,
{
    if fuel == 0 || i < 0 || i >= end || i >= s.len() {
        None
    } else {
        let b = s[i];
        if b < 0x80 {
            Some((b as u64, i + 1))
        } else {
            match spec_varint(s, i + 1, end, (fuel - 1) as nat) {
                None => None,
                Some((v, j)) => Some(((b as u64 & 0x7f) | (v << 7), j)),
            }
        }
    }
}

/// Reads one varint from `data[i..end)` as [`spec_varint`] describes.
pub fn read_varint(data: &[u8], i: usize, end: usize, fuel: u8) -> (r: Option<(u64, usize)>)
    requires
        end <= data@.len(),
    ensures
        (match r {
            Some((v, j)) => spec_varint(data@, i as int, end as int, fuel as nat) == Some(
                (v, j as int),
            ) && i < j <= end,
            None => spec_varint(data@, i as int, end as int, fuel as nat) is None,
        }),
    decreases fuel,
{
    if fuel == 0 || i >= end {
        return None;
    }
    let b = *slice_index_get(data, i);
    if b < 0x80 {
        Some((b as u64, i + 1))
    } else {
        match read_varint(data, i + 1, end, fuel - 1) {
            None => None,
            Some((v, j)) => Some(((b as u64 & 0x7f) | (v << 7), j)),
        }
    }
}

/// A little-endian 32-bit value read from `[i, end)`: the four bytes at `i`,
/// least significant first, and the position after them; nothing when fewer
/// than four bytes remain.
pub open spec fn spec_fixed32(s: Seq<u8>, i: int, end: int) -> Option<(u32, int)> {
    if 0 <= i && i + 4 <= end && end <= s.len() {
        Some(
            (
                (s[i] as u32) | (s[i + 1] as u32) << 8 | (s[i + 2] as u32) << 16 | (s[i + 3]
                    as u32) << 24,
                i + 4,
            ),
        )
    } else {
        None
    }
}

/// Reads one little-endian 32-bit value from `data[i..end)` as
/// [`spec_fixed32`] describes.
pub fn read_fixed32(data: &[u8], i: usize, end: usize) -> (r: Option<(u32, usize)>)
    requires
        end <= data@.len(),
    ensures
        (match r {
            Some((v, j)) => spec_fixed32(data@, i as int, end as int) == Some((v, j as int)) && i
                < j <= end,
            None => spec_fixed32(data@, i as int, end as int) is None,
        }),
{
    if i >= end || end - i < 4 {
        return None;
    }
    let b0 = *slice_index_get(data, i);
    let b1 = *slice_index_get(data, i + 1);
    let b2 = *slice_index_get(data, i + 2);
    let b3 = *slice_index_get(data, i + 3);
    Some(((b0 as u32) | (b1 as u32) << 8 | (b2 as u32) << 16 | (b3 as u32) << 24, i + 4))
}

/// The rider-state entry `st` updated by one varint field: the protocol's
/// field numbers select the member, the value is truncated to the member's
/// width; an unknown number leaves the entry unchanged.
pub open spec fn spec_apply_varint(st: PlayerState, field: u64, v: u64) -> PlayerState {
    if field == 1 {
        PlayerState { id: v as i32, ..st }
    } else if field == 2 {
        PlayerState { world_time: v as i64, ..st }
    } else if field == 3 {
        PlayerState { distance: v as i32, ..st }
    } else if field == 5 {
        PlayerState { laps: v as i32, ..st }
    } else if field == 6 {
        PlayerState { speed: v as i32, ..st }
    } else if field == 8 {
        PlayerState { road_position: v as i32, ..st }
    } else if field == 9 {
        PlayerState { cadence_uhz: v as i32, ..st }
    } else if field == 11 {
        PlayerState { heartrate: v as i32, ..st }
    } else if field == 12 {
        PlayerState { power: v as i32, ..st }
    } else if field == 13 {
        PlayerState { heading: v as i64, ..st }
    } else if field == 14 {
        PlayerState { lean: v as i32, ..st }
    } else if field == 15 {
        PlayerState { climbing: v as i32, ..st }
    } else if field == 16 {
        PlayerState { time: v as i32, ..st }
    } else if field == 20 {
        PlayerState { f20: v as i32, ..st }
    } else if field == 28 {
        PlayerState { watching_rider_id: v as i32, ..st }
    } else if field == 29 {
        PlayerState { group_id: v as i32, ..st }
    } else {
        st
    }
}

/// Applies one varint field to an entry as [`spec_apply_varint`] describes.
pub fn apply_varint(st: PlayerState, field: u64, v: u64) -> (r: PlayerState)
    ensures
        r == spec_apply_varint(st, field, v),
{
    if field == 1 {
        PlayerState { id: #[verifier::truncate] (v as i32), ..st }
    } else if field == 2 {
        PlayerState { world_time: #[verifier::truncate] (v as i64), ..st }
    } else if field == 3 {
        PlayerState { distance: #[verifier::truncate] (v as i32), ..st }
    } else if field == 5 {
        PlayerState { laps: #[verifier::truncate] (v as i32), ..st }
    } else if field == 6 {
        PlayerState { speed: #[verifier::truncate] (v as i32), ..st }
    } else if field == 8 {
        PlayerState { road_position: #[verifier::truncate] (v as i32), ..st }
    } else if field == 9 {
        PlayerState { cadence_uhz: #[verifier::truncate] (v as i32), ..st }
    } else if field == 11 {
        PlayerState { heartrate: #[verifier::truncate] (v as i32), ..st }
    } else if field == 12 {
        PlayerState { power: #[verifier::truncate] (v as i32), ..st }
    } else if field == 13 {
        PlayerState { heading: #[verifier::truncate] (v as i64), ..st }
    } else if field == 14 {
        PlayerState { lean: #[verifier::truncate] (v as i32), ..st }
    } else if field == 15 {
        PlayerState { climbing: #[verifier::truncate] (v as i32), ..st }
    } else if field == 16 {
        PlayerState { time: #[verifier::truncate] (v as i32), ..st }
    } else if field == 20 {
        PlayerState { f20: #[verifier::truncate] (v as i32), ..st }
    } else if field == 28 {
        PlayerState { watching_rider_id: #[verifier::truncate] (v as i32), ..st }
    } else if field == 29 {
        PlayerState { group_id: #[verifier::truncate] (v as i32), ..st }
    } else {
        st
    }
}

/// The rider-state entry `st` updated by one 32-bit fixed field: numbers 25
/// and 27 carry the two position coordinates, reinterpreted as signed; an
/// unknown number leaves the entry unchanged.
pub open spec fn spec_apply_fixed32(st: PlayerState, field: u64, v: u32) -> PlayerState {
    if field == 25 {
        PlayerState { x: v as i32, ..st }
    } else if field == 27 {
        PlayerState { y: v as i32, ..st }
    } else {
        st
    }
}

/// Applies one 32-bit fixed field to an entry as [`spec_apply_fixed32`]
/// describes.
pub fn apply_fixed32(st: PlayerState, field: u64, v: u32) -> (r: PlayerState)
    ensures
        r == spec_apply_fixed32(st, field, v),
{
    if field == 25 {
        PlayerState { x: #[verifier::truncate] (v as i32), ..st }
    } else if field == 27 {
        PlayerState { y: #[verifier::truncate] (v as i32), ..st }
    } else {
        st
    }
}

/// The rider-state sub-message decoded from `[i, end)` onto the entry `st`:
/// a run of tagged fields, varint fields and 32-bit fixed fields applied in
/// order, 64-bit fixed and length-delimited fields skipped, any other wire
/// type or any truncated field failing the decode. A second occurrence of a
/// field overwrites the first, as wire-format merging does.
pub open spec fn spec_state_fields(
    s: Seq<u8>,
    i: int,
    end: int,
    st: PlayerState,
    fuel: nat,
) -> Option<PlayerState>
    decreases fuel,
{
    if i == end {
        Some(st)
    } else if fuel == 0 {
        None
    } else {
        match spec_varint(s, i, end, 10) {
            None => None,
            Some((tag, j)) => {
                let field = tag >> 3;
                let wire = tag & 7;
                if wire == 0 {
                    match spec_varint(s, j, end, 10) {
                        None => None,
                        Some((v, k)) => spec_state_fields(
                            s,
                            k,
                            end,
                            spec_apply_varint(st, field, v),
                            (fuel - 1) as nat,
                        ),
                    }
                } else if wire == 1 {
                    if j + 8 <= end {
                        spec_state_fields(s, j + 8, end, st, (fuel - 1) as nat)
                    } else {
                        None
                    }
                } else if wire == 2 {
                    match spec_varint(s, j, end, 10) {
                        None => None,
                        Some((len, k)) => if k + len <= end {
                            spec_state_fields(s, k + len, end, st, (fuel - 1) as nat)
                        } else {
                            None
                        },
                    }
                } else if wire == 5 {
                    match spec_fixed32(s, j, end) {
                        None => None,
                        Some((v, k)) => spec_state_fields(
                            s,
                            k,
                            end,
                            spec_apply_fixed32(st, field, v),
                            (fuel - 1) as nat,
                        ),
                    }
                } else {
                    None
                }
            },
        }
    }
}

/// Decodes the rider-state sub-message in `data[i..end)` onto `st` as
/// [`spec_state_fields`] describes.
pub fn read_state_fields(
    data: &[u8],
    i: usize,
    end: usize,
    st: PlayerState,
    fuel: usize,
) -> (r: Option<PlayerState>)
    requires
        i <= end <= data@.len(),
    ensures
        r == spec_state_fields(data@, i as int, end as int, st, fuel as nat),
    decreases fuel,
{
    if i == end {
        return Some(st);
    }
    if fuel == 0 {
        return None;
    }
    match read_varint(data, i, end, 10) {
        None => None,
        Some((tag, j)) => {
            let field = tag >> 3;
            let wire = tag & 7;
            if wire == 0 {
                match read_varint(data, j, end, 10) {
                    None => None,
                    Some((v, k)) => read_state_fields(
                        data,
                        k,
                        end,
                        apply_varint(st, field, v),
                        fuel - 1,
                    ),
                }
            } else if wire == 1 {
                if end - j >= 8 {
                    read_state_fields(data, j + 8, end, st, fuel - 1)
                } else {
                    None
                }
            } else if wire == 2 {
                match read_varint(data, j, end, 10) {
                    None => None,
                    Some((len, k)) => if len <= (end - k) as u64 {
                        read_state_fields(data, k + len as usize, end, st, fuel - 1)
                    } else {
                        None
                    },
                }
            } else if wire == 5 {
                match read_fixed32(data, j, end) {
                    None => None,
                    Some((v, k)) => read_state_fields(
                        data,
                        k,
                        end,
                        apply_fixed32(st, field, v),
                        fuel - 1,
                    ),
                }
            } else {
                None
            }
        },
    }
}

/// The rider-state sub-message of `[i, end)` decoded onto `st`, with fuel
/// enough for every field the window can hold.
pub open spec fn spec_state_message(s: Seq<u8>, i: int, end: int, st: PlayerState) -> Option<
    PlayerState,
> {
    spec_state_fields(s, i, end, st, if i <= end { (end - i) as nat } else { 0 })
}

/// Decodes the rider-state sub-message in `data[i..end)` onto `st` as
/// [`spec_state_message`] describes.
pub fn read_state_message(data: &[u8], i: usize, end: usize, st: PlayerState) -> (r: Option<
    PlayerState,
>)
    requires
        i <= end <= data@.len(),
    ensures
        r == spec_state_message(data@, i as int, end as int, st),
{
    read_state_fields(data, i, end, st, end - i)
}

/// The "server to client" message decoded from `[i, end)`: every occurrence
/// of the repeated rider-state field (number 8, length-delimited) contributes
/// one entry, decoded from the all-zero entry, in wire order after `acc`;
/// every other field is skipped by its wire type. The decode fails when a
/// field is truncated, a wire type is unknown, or an embedded rider state
/// fails to decode.
pub open spec fn spec_stc_fields(
    s: Seq<u8>,
    i: int,
    end: int,
    acc: Seq<PlayerState>,
    fuel: nat,
) -> Option<Seq<PlayerState>>
    decreases fuel,
{
    if i == end {
        Some(acc)
    } else if fuel == 0 {
        None
    } else {
        match spec_varint(s, i, end, 10) {
            None => None,
            Some((tag, j)) => {
                let field = tag >> 3;
                let wire = tag & 7;
                if wire == 0 {
                    match spec_varint(s, j, end, 10) {
                        None => None,
                        Some((v, k)) => spec_stc_fields(s, k, end, acc, (fuel - 1) as nat),
                    }
                } else if wire == 1 {
                    if j + 8 <= end {
                        spec_stc_fields(s, j + 8, end, acc, (fuel - 1) as nat)
                    } else {
                        None
                    }
                } else if wire == 2 {
                    match spec_varint(s, j, end, 10) {
                        None => None,
                        Some((len, k)) => if k + len <= end {
                            if field == 8 {
                                match spec_state_message(
                                    s,
                                    k,
                                    k + len,
                                    PlayerState::spec_default(),
                                ) {
                                    None => None,
                                    Some(ps) => spec_stc_fields(
                                        s,
                                        k + len,
                                        end,
                                        acc.push(ps),
                                        (fuel - 1) as nat,
                                    ),
                                }
                            } else {
                                spec_stc_fields(s, k + len, end, acc, (fuel - 1) as nat)
                            }
                        } else {
                            None
                        },
                    }
                } else if wire == 5 {
                    match spec_fixed32(s, j, end) {
                        None => None,
                        Some((v, k)) => spec_stc_fields(s, k, end, acc, (fuel - 1) as nat),
                    }
                } else {
                    None
                }
            },
        }
    }
}

/// Decodes the "server to client" fields in `data[i..end)` after `acc` as
/// [`spec_stc_fields`] describes.
pub fn read_stc_fields(
    data: &[u8],
    i: usize,
    end: usize,
    acc: Vec<PlayerState>,
    fuel: usize,
) -> (r: Option<Vec<PlayerState>>)
    requires
        i <= end <= data@.len(),
    ensures
        (match r {
            Some(v) => spec_stc_fields(data@, i as int, end as int, acc@, fuel as nat) == Some(v@),
            None => spec_stc_fields(data@, i as int, end as int, acc@, fuel as nat) is None,
        }),
    decreases fuel,
{
    if i == end {
        return Some(acc);
    }
    if fuel == 0 {
        return None;
    }
    match read_varint(data, i, end, 10) {
        None => None,
        Some((tag, j)) => {
            let field = tag >> 3;
            let wire = tag & 7;
            if wire == 0 {
                match read_varint(data, j, end, 10) {
                    None => None,
                    Some((v, k)) => read_stc_fields(data, k, end, acc, fuel - 1),
                }
            } else if wire == 1 {
                if end - j >= 8 {
                    read_stc_fields(data, j + 8, end, acc, fuel - 1)
                } else {
                    None
                }
            } else if wire == 2 {
                match read_varint(data, j, end, 10) {
                    None => None,
                    Some((len, k)) => if len <= (end - k) as u64 {
                        let sub_end = k + len as usize;
                        if field == 8 {
                            match read_state_message(data, k, sub_end, PlayerState::empty()) {
                                None => None,
                                Some(ps) => {
                                    let mut acc2 = acc;
                                    acc2.push(ps);
                                    read_stc_fields(data, sub_end, end, acc2, fuel - 1)
                                },
                            }
                        } else {
                            read_stc_fields(data, sub_end, end, acc, fuel - 1)
                        }
                    } else {
                        None
                    },
                }
            } else if wire == 5 {
                match read_fixed32(data, j, end) {
                    None => None,
                    Some((v, k)) => read_stc_fields(data, k, end, acc, fuel - 1),
                }
            } else {
                None
            }
        },
    }
}

/// The "client to server" message decoded from `[i, end)`: the embedded
/// rider-state field (number 7, length-delimited) is decoded onto `st`, so a
/// repeated occurrence merges field by field and a message without one leaves
/// `st` as it stands; every other field is skipped by its wire type. The
/// decode fails as in [`spec_stc_fields`].
pub open spec fn spec_cts_fields(
    s: Seq<u8>,
    i: int,
    end: int,
    st: PlayerState,
    fuel: nat,
) -> Option<PlayerState>
    decreases fuel,
{
    if i == end {
        Some(st)
    } else if fuel == 0 {
        None
    } else {
        match spec_varint(s, i, end, 10) {
            None => None,
            Some((tag, j)) => {
                let field = tag >> 3;
                let wire = tag & 7;
                if wire == 0 {
                    match spec_varint(s, j, end, 10) {
                        None => None,
                        Some((v, k)) => spec_cts_fields(s, k, end, st, (fuel - 1) as nat),
                    }
                } else if wire == 1 {
                    if j + 8 <= end {
                        spec_cts_fields(s, j + 8, end, st, (fuel - 1) as nat)
                    } else {
                        None
                    }
                } else if wire == 2 {
                    match spec_varint(s, j, end, 10) {
                        None => None,
                        Some((len, k)) => if k + len <= end {
                            if field == 7 {
                                match spec_state_message(s, k, k + len, st) {
                                    None => None,
                                    Some(st2) => spec_cts_fields(
                                        s,
                                        k + len,
                                        end,
                                        st2,
                                        (fuel - 1) as nat,
                                    ),
                                }
                            } else {
                                spec_cts_fields(s, k + len, end, st, (fuel - 1) as nat)
                            }
                        } else {
                            None
                        },
                    }
                } else if wire == 5 {
                    match spec_fixed32(s, j, end) {
                        None => None,
                        Some((v, k)) => spec_cts_fields(s, k, end, st, (fuel - 1) as nat),
                    }
                } else {
                    None
                }
            },
        }
    }
}

/// Decodes the "client to server" fields in `data[i..end)` onto `st` as
/// [`spec_cts_fields`] describes.
pub fn read_cts_fields(
    data: &[u8],
    i: usize,
    end: usize,
    st: PlayerState,
    fuel: usize,
) -> (r: Option<PlayerState>)
    requires
        i <= end <= data@.len(),
    ensures
        r == spec_cts_fields(data@, i as int, end as int, st, fuel as nat),
    decreases fuel,
{
    if i == end {
        return Some(st);
    }
    if fuel == 0 {
        return None;
    }
    match read_varint(data, i, end, 10) {
        None => None,
        Some((tag, j)) => {
            let field = tag >> 3;
            let wire = tag & 7;
            if wire == 0 {
                match read_varint(data, j, end, 10) {
                    None => None,
                    Some((v, k)) => read_cts_fields(data, k, end, st, fuel - 1),
                }
            } else if wire == 1 {
                if end - j >= 8 {
                    read_cts_fields(data, j + 8, end, st, fuel - 1)
                } else {
                    None
                }
            } else if wire == 2 {
                match read_varint(data, j, end, 10) {
                    None => None,
                    Some((len, k)) => if len <= (end - k) as u64 {
                        let sub_end = k + len as usize;
                        if field == 7 {
                            match read_state_message(data, k, sub_end, st) {
                                None => None,
                                Some(st2) => read_cts_fields(data, sub_end, end, st2, fuel - 1),
                            }
                        } else {
                            read_cts_fields(data, sub_end, end, st, fuel - 1)
                        }
                    } else {
                        None
                    },
                }
            } else if wire == 5 {
                match read_fixed32(data, j, end) {
                    None => None,
                    Some((v, k)) => read_cts_fields(data, k, end, st, fuel - 1),
                }
            } else {
                None
            }
        },
    }
}

/// The entries of the "server to client" message held by the whole window
/// `[i, end)`, or nothing when the window is not a valid encoding of that
/// schema.
pub open spec fn spec_server_to_client(s: Seq<u8>, i: int, end: int) -> Option<Seq<PlayerState>> {
    spec_stc_fields(s, i, end, Seq::empty(), if i <= end { (end - i) as nat } else { 0 })
}

/// Decodes `data[i..end)` as a whole "server to client" message, as
/// [`spec_server_to_client`] describes.
pub fn decode_server_to_client(data: &[u8], i: usize, end: usize) -> (r: Option<Vec<PlayerState>>)
    requires
        i <= end <= data@.len(),
    ensures
        (match r {
            Some(v) => spec_server_to_client(data@, i as int, end as int) == Some(v@),
            None => spec_server_to_client(data@, i as int, end as int) is None,
        }),
{
    let acc: Vec<PlayerState> = Vec::new();
    read_stc_fields(data, i, end, acc, end - i)
}

/// The rider state of the "client to server" message held by the whole
/// window `[i, end)` — the all-zero entry when the message carries none — or
/// nothing when the window is not a valid encoding of that schema.
pub open spec fn spec_client_to_server(s: Seq<u8>, i: int, end: int) -> Option<PlayerState> {
    spec_cts_fields(
        s,
        i,
        end,
        PlayerState::spec_default(),
        if i <= end { (end - i) as nat } else { 0 },
    )
}

/// Decodes `data[i..end)` as a whole "client to server" message, as
/// [`spec_client_to_server`] describes.
pub fn decode_client_to_server(data: &[u8], i: usize, end: usize) -> (r: Option<PlayerState>)
    requires
        i <= end <= data@.len(),
    ensures
        r == spec_client_to_server(data@, i as int, end as int),
{
    read_cts_fields(data, i, end, PlayerState::empty(), end - i)
}

} // verus!
