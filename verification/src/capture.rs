//! The capture pipeline: pulling raw frames from a capture source and
//! threading each one through decapsulation, classification, frame location,
//! decode and normalization, one datagram's worth of records per pull.

use vstd::prelude::*;
use vstd::slice::slice_to_vec;

use crate::message::{spec_from_server_records, spec_to_server_records, ZwiftMessage, SERVER_PORT};
use crate::player::Player;

verus! {

/// What decapsulating a raw Ethernet frame yields: the source port,
/// destination port and payload of the UDP datagram it carries, or nothing
/// when the frame carries no UDP transport. A function of the frame bytes
/// alone.
pub uninterp spec fn udp_fields(frame: Seq<u8>) -> Option<(u16, u16, Seq<u8>)>;

/// Relies on `etherparse::SlicedPacket::from_ethernet`: slices the Ethernet,
/// IP and transport headers of the frame without copying, and on
/// `etherparse::UdpSlice`: hands out the UDP ports and payload of the sliced
/// datagram. A frame that does not parse, or whose transport is not UDP,
/// yields nothing.
#[verifier::external_body]
fn udp_of_ethernet(frame: &[u8]) -> (r: Option<(u16, u16, Vec<u8>)>)
    ensures
        (match r {
            Some((sp, dp, payload)) => udp_fields(frame@) == Some((sp, dp, payload@)),
            None => udp_fields(frame@) is None,
        }),
{
    match etherparse::SlicedPacket::from_ethernet(frame) {
        Ok(parsed) => match parsed.transport {
            Some(etherparse::TransportSlice::Udp(u)) => Some(
                (u.source_port(), u.destination_port(), u.payload().to_vec()),
            ),
            _ => None,
        },
        Err(_) => None,
    }
}

/// The records one UDP datagram yields: server-originated payloads decode
/// whole, client-originated payloads decode through the frame locator, and a
/// client-originated payload too short to hold its 4 trailing non-message
/// bytes yields no records.
pub open spec fn spec_datagram_records(source_port: u16, payload: Seq<u8>) -> Seq<Player> {
    if source_port == SERVER_PORT {
        spec_from_server_records(payload)
    } else if payload.len() >= 4 {
        spec_to_server_records(payload)
    } else {
        Seq::empty()
    }
}

/// Classifies one UDP datagram and decodes it into its rider-state records,
/// as [`spec_datagram_records`] describes. Never fails: a payload that
/// carries no well-formed message yields an empty sequence.
pub fn records_of_datagram(source_port: u16, payload: &[u8]) -> (r: Vec<Player>)
    ensures
        r@ == spec_datagram_records(source_port, payload@),
{
    if source_port != SERVER_PORT && payload.len() < 4 {
        return Vec::new();
    }
    let message = crate::message::classify(source_port, payload);
    match message.get_players() {
        Some(players) => players,
        None => {
            proof {
                assert(false);
            }
            Vec::new()
        },
    }
}

/// Classification depends on the source port alone and is deterministic: a
/// datagram whose source port is the server telemetry port always yields the
/// records of a server-originated payload, and a datagram from any other port
/// always yields the records of a client-originated payload.
pub proof fn lemma_classification_by_port(source_port: u16, payload: Seq<u8>)
    ensures
        source_port == SERVER_PORT ==> spec_datagram_records(source_port, payload)
            == spec_from_server_records(payload),
        source_port != SERVER_PORT && payload.len() >= 4 ==> spec_datagram_records(
            source_port,
            payload,
        ) == spec_to_server_records(payload),
{
}

/// The records one raw Ethernet frame yields: those of its UDP datagram, or
/// none when it carries no UDP transport.
pub open spec fn spec_frame_records(frame: Seq<u8>) -> Seq<Player> {
    match udp_fields(frame) {
        Some((source_port, destination_port, payload)) => spec_datagram_records(
            source_port,
            payload,
        ),
        None => Seq::empty(),
    }
}

/// Decapsulates one raw Ethernet frame and decodes its datagram into
/// rider-state records, as [`spec_frame_records`] describes.
pub fn records_of_frame(frame: &[u8]) -> (r: Vec<Player>)
    ensures
        r@ == spec_frame_records(frame@),
{
    match udp_of_ethernet(frame) {
        Some((source_port, _destination_port, payload)) => records_of_datagram(
            source_port,
            payload.as_slice(),
        ),
        None => Vec::new(),
    }
}

/// One UDP datagram lifted out of a captured frame.
pub struct Datagram {
    pub source_port: u16,
    pub destination_port: u16,
    pub payload: Vec<u8>,
}

impl Datagram {
    /// Tags the datagram's payload by its source port.
    pub fn message(&self) -> (r: ZwiftMessage<'_>)
        ensures
            self.source_port == SERVER_PORT ==> (r matches ZwiftMessage::FromServer(p) && p@
                == self.payload@),
            self.source_port != SERVER_PORT ==> (r matches ZwiftMessage::ToServer(p) && p@
                == self.payload@),
    {
        crate::message::classify(self.source_port, self.payload.as_slice())
    }
}

/// A capture source: a single-owner, single-consumer supplier of raw frames,
/// live or recorded, whose only contract is "produce the next raw frame or
/// signal exhaustion".
pub trait FrameSource {
    /// The raw frames the source will still deliver, in delivery order. An
    /// implementation that does not say otherwise leaves the model
    /// unspecified.
    open spec fn frames(&self) -> Seq<Seq<u8>> {
        vstd::pervasive::arbitrary()
    }

    /// Pulls the next raw frame: the head of `frames`, or nothing once the
    /// source is exhausted. May block until a frame arrives.
    fn next_frame(&mut self) -> (r: Option<Vec<u8>>)
        ensures
            old(self).frames().len() == 0 ==> r is None && final(self).frames() == old(
                self,
            ).frames(),
            old(self).frames().len() > 0 ==> (r matches Some(f) && f@ == old(self).frames()[0]
                && final(self).frames() == old(self).frames().drop_first()),
    ;
}

/// A recorded capture source: a finite, in-memory sequence of raw frames,
/// delivered in order and then exhausted.
pub struct RecordedSource {
    recorded: Vec<Vec<u8>>,
    next: usize,
}

impl RecordedSource {
    /// A recorded source that will deliver exactly `frames`, in order.
    pub fn new(frames: Vec<Vec<u8>>) -> (r: RecordedSource)
        ensures
            r.frames() == frames@.map_values(|f: Vec<u8>| f@),
    {
        let r = RecordedSource { recorded: frames, next: 0 };
        proof {
            assert(r.frames() =~= r.recorded@.map_values(|f: Vec<u8>| f@));
        }
        r
    }
}

impl FrameSource for RecordedSource {
    closed spec fn frames(&self) -> Seq<Seq<u8>> {
        if self.next <= self.recorded@.len() {
            self.recorded@.subrange(self.next as int, self.recorded@.len() as int).map_values(
                |f: Vec<u8>| f@,
            )
        } else {
            Seq::empty()
        }
    }

    fn next_frame(&mut self) -> (r: Option<Vec<u8>>) {
        if self.next < self.recorded.len() {
            let frame = slice_to_vec(self.recorded[self.next].as_slice());
            self.next = self.next + 1;
            proof {
                assert(self.frames() =~= old(self).frames().drop_first());
            }
            Some(frame)
        } else {
            None
        }
    }
}

/// The capture iterator: wraps a capture source and turns each pulled frame
/// into the rider-state records of its datagram. Pull-based and synchronous:
/// nothing happens until the consumer asks for the next result.
pub struct ZwiftCapture<T> {
    capture: T,
}

impl<T: FrameSource> ZwiftCapture<T> {
    /// The raw frames the wrapped source will still deliver.
    pub closed spec fn frames(&self) -> Seq<Seq<u8>> {
        self.capture.frames()
    }

    /// Wraps a capture source.
    pub fn new(capture: T) -> (r: ZwiftCapture<T>)
        ensures
            r.frames() == capture.frames(),
    {
        ZwiftCapture { capture }
    }

    /// Pulls the next raw frame and lifts out its UDP datagram: nothing when
    /// the source is exhausted, and nothing for a frame that carries no UDP
    /// transport — that frame is still consumed.
    pub fn next_payload(&mut self) -> (r: Option<Datagram>)
        ensures
            old(self).frames().len() == 0 ==> r is None && final(self).frames() == old(
                self,
            ).frames(),
            old(self).frames().len() > 0 ==> final(self).frames() == old(self).frames().drop_first()
                && (match r {
                Some(d) => udp_fields(old(self).frames()[0]) == Some(
                    (d.source_port, d.destination_port, d.payload@),
                ),
                None => udp_fields(old(self).frames()[0]) is None,
            }),
    {
        match self.capture.next_frame() {
            None => None,
            Some(frame) => match udp_of_ethernet(frame.as_slice()) {
                Some((source_port, destination_port, payload)) => Some(
                    Datagram { source_port, destination_port, payload },
                ),
                None => None,
            },
        }
    }

    /// Pulls the next raw frame and yields its records: nothing when the
    /// source is exhausted — the end of iteration — and otherwise exactly the
    /// records of that one frame, an empty sequence when decapsulation or
    /// decode fails. Per-frame failures never end the iteration.
    pub fn next(&mut self) -> (r: Option<Vec<Player>>)
        ensures
            old(self).frames().len() == 0 ==> r is None && final(self).frames() == old(
                self,
            ).frames(),
            old(self).frames().len() > 0 ==> (r matches Some(v) && v@ == spec_frame_records(
                old(self).frames()[0],
            ) && final(self).frames() == old(self).frames().drop_first()),
    {
        match self.capture.next_frame() {
            None => None,
            Some(frame) => Some(records_of_frame(frame.as_slice())),
        }
    }
}

} // verus!
