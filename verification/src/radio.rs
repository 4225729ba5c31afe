//! Radio payloads: checking a received control packet, reading the
//! telemetry from an ack payload, and the busy-wait delay that the radio
//! driver is given.
//!
//! Payloads are postcard-encoded; postcard encodes a struct as the tuple of
//! its fields in declaration order, so the packets are decoded as tuples of
//! their field types.

use vstd::prelude::*;
use crate::protocol::{ControlPacket, TelemetryPacket, MAX_PAYLOAD};

verus! {

/// Why a received payload was rejected.
#[derive(Clone, Copy, Debug, PartialEq, Eq, Structural)]
pub enum RadioError {
    /// Empty, or longer than one radio packet.
    BadLen,
    /// Decoded, but the magic byte or the CRC is wrong.
    BadPacket,
    /// Not a postcard encoding of a control packet.
    Decode,
}

/// What `postcard::from_bytes` makes of `bytes` as the fields of a control
/// packet (magic, seq, axis_x, axis_y, buttons, speed_limit, crc); `None`
/// when it fails.
pub uninterp spec fn postcard_control_fields(bytes: Seq<u8>) -> Option<(u8, u16, i16, i16, u16, u8, u16)>;

/// What `postcard::from_bytes` makes of `bytes` as the fields of a telemetry
/// packet (battery_mv, last_seq, status); `None` when it fails.
pub uninterp spec fn postcard_telemetry_fields(bytes: Seq<u8>) -> Option<(u16, u16, u8)>;

/// Calls `postcard::from_bytes` for the tuple of a control packet's field
/// types. Trusted: the result is taken to be a function of the bytes alone
/// (postcard's decoder reads only the slice), named
/// `postcard_control_fields`; the error's kind is dropped.
#[verifier::external_body]
fn decode_control_fields(buf: &[u8]) -> (fields: Option<(u8, u16, i16, i16, u16, u8, u16)>)
    ensures
        fields == postcard_control_fields(buf@),
{
    postcard::from_bytes::<(u8, u16, i16, i16, u16, u8, u16)>(buf).ok()
}

/// Calls `postcard::from_bytes` for the tuple of a telemetry packet's field
/// types. Trusted: the result is taken to be a function of the bytes alone,
/// named `postcard_telemetry_fields`; the error's kind is dropped.
#[verifier::external_body]
fn decode_telemetry_fields(buf: &[u8]) -> (fields: Option<(u16, u16, u8)>)
    ensures
        fields == postcard_telemetry_fields(buf@),
{
    postcard::from_bytes::<(u16, u16, u8)>(buf).ok()
}

/// The control packet with the given fields, in wire order.
pub open spec fn packet_from_fields(f: (u8, u16, i16, i16, u16, u8, u16)) -> ControlPacket {
    ControlPacket {
        magic: f.0,
        seq: f.1,
        axis_x: f.2,
        axis_y: f.3,
        buttons: f.4,
        speed_limit: f.5,
        crc: f.6,
    }
}

/// The telemetry packet with the given fields, in wire order.
pub open spec fn telemetry_from_fields(f: (u16, u16, u8)) -> TelemetryPacket {
    TelemetryPacket { battery_mv: f.0, last_seq: f.1, status: f.2 }
}

/// Outcome for a payload of acceptable length whose decoding gave `decoded`.
pub open spec fn accepted(decoded: Option<(u8, u16, i16, i16, u16, u8, u16)>) -> Result<ControlPacket, RadioError> {
    match decoded {
        None => Err(RadioError::Decode),
        Some(f) => if packet_from_fields(f).valid() {
            Ok(packet_from_fields(f))
        } else {
            Err(RadioError::BadPacket)
        },
    }
}

/// A payload length that fits one radio packet.
pub open spec fn payload_len_ok(len: int) -> bool {
    0 < len <= MAX_PAYLOAD
}

/// Accepts decoded control-packet fields only when they form a packet that
/// passes `verify`.
pub fn accept_decoded(decoded: Option<(u8, u16, i16, i16, u16, u8, u16)>) -> (r: Result<ControlPacket, RadioError>)
    ensures
        r == accepted(decoded),
{
    match decoded {
        None => Err(RadioError::Decode),
        Some(f) => {
            let pkt = ControlPacket {
                magic: f.0,
                seq: f.1,
                axis_x: f.2,
                axis_y: f.3,
                buttons: f.4,
                speed_limit: f.5,
                crc: f.6,
            };
            if pkt.verify() {
                Ok(pkt)
            } else {
                Err(RadioError::BadPacket)
            }
        },
    }
}

/// Parses a received payload into a control packet: the length must fit one
/// radio packet, the bytes must decode, and the packet must verify.
pub fn parse_payload(buf: &[u8]) -> (r: Result<ControlPacket, RadioError>)
    ensures
        !payload_len_ok(buf@.len() as int) ==> r == Err::<ControlPacket, RadioError>(RadioError::BadLen),
        payload_len_ok(buf@.len() as int) ==> r == accepted(postcard_control_fields(buf@)),
        r matches Ok(p) ==> p.valid(),
{
    if buf.len() == 0 || buf.len() > MAX_PAYLOAD {
        return Err(RadioError::BadLen);
    }
    accept_decoded(decode_control_fields(buf))
}

/// Telemetry from decoded fields, if the decoding succeeded.
pub open spec fn telemetry_decoded(decoded: Option<(u16, u16, u8)>) -> Option<TelemetryPacket> {
    match decoded {
        Some(f) => Some(telemetry_from_fields(f)),
        None => None,
    }
}

/// The telemetry packet made of decoded ack-payload fields; none when the
/// payload did not decode.
pub fn telemetry_from_decoded(decoded: Option<(u16, u16, u8)>) -> (r: Option<TelemetryPacket>)
    ensures
        r == telemetry_decoded(decoded),
{
    match decoded {
        Some(f) => Some(TelemetryPacket { battery_mv: f.0, last_seq: f.1, status: f.2 }),
        None => None,
    }
}

/// The telemetry in an ack payload `frame`, if any: nothing for an empty
/// frame or one that does not decode.
pub fn telemetry_from_ack(frame: &[u8]) -> (r: Option<TelemetryPacket>)
    ensures
        frame@.len() == 0 ==> r is None,
        frame@.len() > 0 ==> r == telemetry_decoded(postcard_telemetry_fields(frame@)),
{
    if frame.len() == 0 {
        return None;
    }
    telemetry_from_decoded(decode_telemetry_fields(frame))
}

/// System clock of the car board (Hz).
pub const SYS_CLOCK_HZ: u64 = 125_000_000;

/// Busy-wait delay handed to the radio driver.
pub struct BlockingDelay;

impl BlockingDelay {
    /// Clock cycles to wait for `ns` nanoseconds at `SYS_CLOCK_HZ`, rounded down.
    pub fn cycles_for_ns(ns: u32) -> (cycles: u32)
        ensures
            cycles == ns as int * SYS_CLOCK_HZ as int / 1_000_000_000,
    {
        assert(ns as u64 * 125_000_000 <= 4294967295u64 * 125_000_000) by (nonlinear_arith);
        let c: u64 = (ns as u64 * SYS_CLOCK_HZ) / 1_000_000_000;
        assert(c <= 536870911);
        c as u32
    }
}

} // verus!
