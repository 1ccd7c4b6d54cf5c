//! Direction-tagged protocol messages, the frame locator for
//! client-originated payloads, and the decode of a tagged message into
//! rider-state records.

use vstd::prelude::*;
use vstd::slice::slice_index_get;

use crate::player::{spec_normalize, Player, PlayerState};
use crate::wire::{
    decode_client_to_server, decode_server_to_client, spec_client_to_server, spec_server_to_client,
};

verus! {

/// A UDP datagram payload tagged with the direction the datagram travelled,
/// inferred from its source port. A view only: it borrows the payload buffer
/// of the single datagram and owns nothing.
#[derive(Clone, Copy)]
pub enum ZwiftMessage<'a> {
    /// A payload sent by the server: the whole payload is the message.
    FromServer(&'a [u8]),
    /// A payload sent by a client: the message is embedded at a variable
    /// offset behind a short header, with 4 trailing bytes of non-message
    /// data.
    ToServer(&'a [u8]),
}

/// The end of the message window inside a client-originated payload: the
/// last 4 bytes are excluded as trailing non-message data.
pub open spec fn spec_frame_limit(p: Seq<u8>) -> int {
    p.len() - 4
}

/// The fallback scan of the frame locator: the index of the first byte equal
/// to 0x08 — the tag of field number 1 as a varint, the expected first byte
/// of the embedded message — at or after `i` and at or before `limit`, or 0
/// when no such byte exists.
pub open spec fn spec_scan_offset(p: Seq<u8>, i: int, limit: int) -> int
    decreases limit - i,
{
    if i < 0 || i > limit || i >= p.len() {
        0
    } else if p[i] == 8 {
        i
    } else if i == limit {
        0
    } else {
        spec_scan_offset(p, i + 1, limit)
    }
}

/// The start of the message window inside a client-originated payload.
/// Primary guess: the first payload byte encodes the offset plus one. When
/// that byte is 0 — it can encode no offset — or places the start at or past
/// the limit, the guess is distrusted and the 0x08 scan of
/// [`spec_scan_offset`] decides, defaulting to 0 when it finds nothing.
pub open spec fn spec_locate_offset(p: Seq<u8>) -> int
    recommends
        p.len() >= 4,
{
    let limit = spec_frame_limit(p);
    let first = p[0] as int;
    if 1 <= first && first - 1 < limit {
        first - 1
    } else {
        spec_scan_offset(p, 0, limit)
    }
}

/// Runs the fallback scan of [`spec_scan_offset`] from `i`.
fn scan_offset(payload: &[u8], i: usize, limit: usize) -> (r: usize)
    requires
        i <= limit < payload@.len(),
    ensures
        r == spec_scan_offset(payload@, i as int, limit as int),
        r <= limit,
    decreases limit - i,
{
    let b = *slice_index_get(payload, i);
    if b == 8 {
        i
    } else if i == limit {
        0
    } else {
        scan_offset(payload, i + 1, limit)
    }
}

/// Locates the message window `[offset, limit)` inside a client-originated
/// payload: `offset` as [`spec_locate_offset`] describes, `limit` as
/// [`spec_frame_limit`].
pub fn locate_window(payload: &[u8]) -> (r: (usize, usize))
    requires
        payload@.len() >= 4,
    ensures
        r.0 as int == spec_locate_offset(payload@),
        r.1 as int == spec_frame_limit(payload@),
        r.0 <= r.1 <= payload@.len(),
{
    let limit = payload.len() - 4;
    let first = *slice_index_get(payload, 0);
    if first >= 1 && ((first - 1) as usize) < limit {
        ((first - 1) as usize, limit)
    } else {
        (scan_offset(payload, 0, limit), limit)
    }
}

/// The records of a server-originated payload: the whole payload decodes
/// against the "server to client" schema and yields one record per embedded
/// entry, in wire order; a payload that is not a valid encoding yields no
/// records.
pub open spec fn spec_from_server_records(p: Seq<u8>) -> Seq<Player> {
    match spec_server_to_client(p, 0, p.len() as int) {
        Some(states) => states.map_values(|s: PlayerState| spec_normalize(s)),
        None => Seq::empty(),
    }
}

/// The records of a client-originated payload: its located window decodes
/// against the "client to server" schema and yields the one record of the
/// embedded entry; a window that is not a valid encoding yields no records.
pub open spec fn spec_to_server_records(p: Seq<u8>) -> Seq<Player>
    recommends
        p.len() >= 4,
{
    match spec_client_to_server(p, spec_locate_offset(p), spec_frame_limit(p)) {
        Some(st) => seq![spec_normalize(st)],
        None => Seq::empty(),
    }
}

/// The rider-state records a tagged message yields, by its direction.
pub open spec fn spec_players(m: ZwiftMessage) -> Seq<Player> {
    match m {
        ZwiftMessage::FromServer(p) => spec_from_server_records(p@),
        ZwiftMessage::ToServer(p) => spec_to_server_records(p@),
    }
}

/// The well-known server telemetry port: a datagram whose source port equals
/// it is server-originated, every other datagram is client-originated.
pub const SERVER_PORT: u16 = 3022;

/// The direction classifier: tags a datagram payload by its source port.
/// Total and deterministic — every datagram yields exactly one tagged
/// message; source port [`SERVER_PORT`] always tags it server-originated,
/// every other port always client-originated.
pub fn classify<'a>(source_port: u16, payload: &'a [u8]) -> (r: ZwiftMessage<'a>)
    ensures
        source_port == SERVER_PORT ==> (r matches ZwiftMessage::FromServer(p) && p@ == payload@),
        source_port != SERVER_PORT ==> (r matches ZwiftMessage::ToServer(p) && p@ == payload@),
{
    if source_port == SERVER_PORT {
        ZwiftMessage::FromServer(payload)
    } else {
        ZwiftMessage::ToServer(payload)
    }
}

/// Normalizes every entry of `states`, in order.
fn normalize_all(states: &Vec<PlayerState>) -> (r: Vec<Player>)
    ensures
        r@ == states@.map_values(|s: PlayerState| spec_normalize(s)),
{
    let mut players: Vec<Player> = Vec::new();
    let mut idx: usize = 0;
    while idx < states.len()
        invariant
            idx <= states@.len(),
            players@ == states@.subrange(0, idx as int).map_values(
                |s: PlayerState| spec_normalize(s),
            ),
        decreases states@.len() - idx,
    {
        players.push(Player::from(&states[idx]));
        idx = idx + 1;
        proof {
            assert(players@ =~= states@.subrange(0, idx as int).map_values(
                |s: PlayerState| spec_normalize(s),
            ));
        }
    }
    proof {
        assert(states@.subrange(0, states@.len() as int) =~= states@);
    }
    players
}

impl<'a> ZwiftMessage<'a> {
    /// Decodes the message into its rider-state records, as [`spec_players`]
    /// describes. Always returns a sequence — empty on decode failure, never
    /// an error — because not every captured datagram carries a well-formed
    /// message. A client-originated payload must hold at least the 4 trailing
    /// non-message bytes.
    pub fn get_players(&self) -> (r: Option<Vec<Player>>)
        requires
            *self matches ZwiftMessage::ToServer(p) ==> p@.len() >= 4,
        ensures
            (r matches Some(v) && v@ == spec_players(*self)),
    {
        match *self {
            ZwiftMessage::FromServer(payload) => {
                match decode_server_to_client(payload, 0, payload.len()) {
                    Some(states) => Some(normalize_all(&states)),
                    None => Some(Vec::new()),
                }
            },
            ZwiftMessage::ToServer(payload) => {
                let (offset, limit) = locate_window(payload);
                match decode_client_to_server(payload, offset, limit) {
                    Some(st) => {
                        let mut players: Vec<Player> = Vec::new();
                        players.push(Player::from(&st));
                        proof {
                            assert(players@ =~= seq![spec_normalize(st)]);
                        }
                        Some(players)
                    },
                    None => Some(Vec::new()),
                }
            },
        }
    }
}

/// When the primary guess of the frame locator places the message start at
/// or past the limit — or the header byte is 0 and can encode no offset — the
/// locator uses the 0x08 scan, never the primary guess.
pub proof fn lemma_locator_fallback(p: Seq<u8>)
    requires
        p.len() >= 4,
        p[0] == 0 || p[0] as int - 1 >= spec_frame_limit(p),
    ensures
        spec_locate_offset(p) == spec_scan_offset(p, 0, spec_frame_limit(p)),
{
}

/// A scan over bytes that are nowhere 0x08 up to and including the limit
/// defaults to offset 0.
pub proof fn lemma_scan_defaults_to_zero(p: Seq<u8>, i: int, limit: int)
    requires
        limit < p.len(),
        forall|k: int| i <= k <= limit ==> p[k] != 8,
    ensures
        spec_scan_offset(p, i, limit) == 0,
    decreases limit - i,
{
    if 0 <= i && i < limit && i < p.len() {
        lemma_scan_defaults_to_zero(p, i + 1, limit);
    }
}

/// The frame locator of a payload whose primary guess fails and which holds
/// no 0x08 byte at or before the limit defaults to offset 0.
pub proof fn lemma_locator_defaults_to_zero(p: Seq<u8>)
    requires
        p.len() >= 4,
        p[0] == 0 || p[0] as int - 1 >= spec_frame_limit(p),
        forall|k: int| 0 <= k <= spec_frame_limit(p) ==> p[k] != 8,
    ensures
        spec_locate_offset(p) == 0,
{
    lemma_locator_fallback(p);
    lemma_scan_defaults_to_zero(p, 0, spec_frame_limit(p));
}

/// A server-originated payload whose decode yields `states` yields exactly
/// one record per decoded entry, in encounter order: none dropped, none
/// duplicated, each the normalization of its entry.
pub proof fn lemma_server_records_one_per_entry(p: Seq<u8>, states: Seq<PlayerState>)
    requires
        spec_server_to_client(p, 0, p.len() as int) == Some(states),
    ensures
        spec_from_server_records(p).len() == states.len(),
        forall|i: int|
            0 <= i < states.len() ==> spec_from_server_records(p)[i] == spec_normalize(states[i]),
{
}

/// A client-originated payload whose header byte correctly encodes the
/// message offset, and whose located window decodes to the entry `st`, yields
/// exactly the one record of that entry.
pub proof fn lemma_client_record(p: Seq<u8>, st: PlayerState)
    requires
        p.len() >= 4,
        1 <= p[0],
        p[0] as int - 1 < spec_frame_limit(p),
        spec_client_to_server(p, p[0] as int - 1, spec_frame_limit(p)) == Some(st),
    ensures
        spec_to_server_records(p) == seq![spec_normalize(st)],
{
}

/// A window that is not a valid encoding of the "server to client" schema
/// yields no records — an empty sequence, never an error.
pub proof fn lemma_server_decode_failure(p: Seq<u8>)
    requires
        spec_server_to_client(p, 0, p.len() as int) is None,
    ensures
        spec_from_server_records(p) == Seq::<Player>::empty(),
{
}

/// A located window that is not a valid encoding of the "client to server"
/// schema yields no records — an empty sequence, never an error.
pub proof fn lemma_client_decode_failure(p: Seq<u8>)
    requires
        spec_client_to_server(p, spec_locate_offset(p), spec_frame_limit(p)) is None,
    ensures
        spec_to_server_records(p) == Seq::<Player>::empty(),
{
}

} // verus!
