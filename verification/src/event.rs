//! The raw-event wire codec: the fixed-layout wire record the kernel
//! produces and consumes, the semantic event model, and the lossless
//! mapping between the two for every modeled event kind.

use vstd::prelude::*;

use crate::codes::AbsoluteAxis;
use crate::codes::EventKind;
use crate::codes::FromCode;
use crate::codes::Key;
use crate::codes::RelativeAxis;

verus! {

/// A point in time as the kernel reports it: whole seconds and
/// microseconds, read from the monotonic clock.
#[derive(Copy, Clone, PartialEq, Eq, Structural, Debug)]
pub struct Timestamp {
    pub sec: i64,
    pub usec: i64,
}

impl Timestamp {
    /// The span from `earlier` to this instant, in whole
    /// microseconds; nothing when this instant precedes `earlier`.
    pub fn micros_since(&self, earlier: &Timestamp) -> (r: Option<i128>)
        ensures
            r is Some <==> (self.sec - earlier.sec) * 1000000 + self.usec - earlier.usec >= 0,
            r matches Some(total) ==> total == (self.sec - earlier.sec) * 1000000 + self.usec
                - earlier.usec,
    {
        let total: i128 = (self.sec as i128 - earlier.sec as i128) * 1000000 + self.usec as i128
            - earlier.usec as i128;
        if total >= 0 {
            Some(total)
        } else {
            None
        }
    }
}

/// The size in bytes of one wire record: two 64-bit timestamp fields,
/// two 16-bit fields and one 32-bit field, in native (little-endian)
/// byte order with no padding.
pub const RAW_INPUT_EVENT_SIZE: usize = 24;

/// One event record exactly as it crosses the device handle:
/// a timestamp, a 16-bit event kind, a 16-bit code and a 32-bit value.
#[derive(Clone, PartialEq, Eq, Structural, Debug)]
pub struct RawInputEvent {
    pub timestamp: Timestamp,
    pub kind: u16,
    pub code: u16,
    pub value: i32,
}

/// What an event means, one variant per modeled shape, with a
/// verbatim fallback for everything else.
#[derive(Clone, PartialEq, Eq, Structural, Debug)]
pub enum InputEventBody {
    KeyPress(Key),
    KeyRelease(Key),
    RelativeMove { axis: RelativeAxis, delta: i32 },
    AbsoluteMove { axis: AbsoluteAxis, position: i32 },
    /// End-of-report marker.
    Flush,
    /// Buffer-overrun marker.
    Dropped,
    /// Any kind/code/value triple the model gives no name to,
    /// preserved verbatim.
    Other { kind: EventKind, code: u16, value: i32 },
}

/// A semantic event: when it happened and what it means.
#[derive(Clone, PartialEq, Eq, Structural, Debug)]
pub struct InputEvent {
    pub timestamp: Timestamp,
    pub body: InputEventBody,
}

/// The meaning of a raw (kind, code, value) triple, in the decode
/// rules' priority order. A key event with value 2 (autorepeat) is
/// deliberately unmodeled and falls through to `Other`.
pub open spec fn spec_decode_body(kind: u16, code: u16, value: i32) -> InputEventBody {
    let k = <EventKind as FromCode>::spec_from_code(kind);
    if k == EventKind::Key && value == 1 {
        InputEventBody::KeyPress(<Key as FromCode>::spec_from_code(code))
    } else if k == EventKind::Key && value == 0 {
        InputEventBody::KeyRelease(<Key as FromCode>::spec_from_code(code))
    } else if k == EventKind::RelativeAxis {
        InputEventBody::RelativeMove {
            axis: <RelativeAxis as FromCode>::spec_from_code(code),
            delta: value,
        }
    } else if k == EventKind::AbsoluteAxis {
        InputEventBody::AbsoluteMove {
            axis: <AbsoluteAxis as FromCode>::spec_from_code(code),
            position: value,
        }
    } else if k == EventKind::Synchronization && code == 0 && value == 0 {
        InputEventBody::Flush
    } else if k == EventKind::Synchronization && code == 3 && value == 0 {
        InputEventBody::Dropped
    } else {
        InputEventBody::Other { kind: k, code, value }
    }
}

/// The raw (kind, code, value) triple a body encodes to: the exact
/// inverse of the decode rules, variant by variant.
pub open spec fn spec_encode_body(body: InputEventBody) -> (u16, u16, i32) {
    match body {
        InputEventBody::KeyPress(key) => (EventKind::Key.spec_code(), key.spec_code(), 1),
        InputEventBody::KeyRelease(key) => (EventKind::Key.spec_code(), key.spec_code(), 0),
        InputEventBody::RelativeMove { axis, delta } => (
            EventKind::RelativeAxis.spec_code(),
            axis.spec_code(),
            delta,
        ),
        InputEventBody::AbsoluteMove { axis, position } => (
            EventKind::AbsoluteAxis.spec_code(),
            axis.spec_code(),
            position,
        ),
        InputEventBody::Flush => (EventKind::Synchronization.spec_code(), 0, 0),
        InputEventBody::Dropped => (EventKind::Synchronization.spec_code(), 3, 0),
        InputEventBody::Other { kind, code, value } => (kind.spec_code(), code, value),
    }
}

/// A body is well formed when its codes are canonical and, for the
/// fallback variant, when its triple really has no modeled meaning.
/// Every decoded body is well formed (`lemma_decode_body_wf`), and
/// exactly the well-formed bodies survive an encode/decode round trip.
pub open spec fn body_wf(body: InputEventBody) -> bool {
    match body {
        InputEventBody::KeyPress(key) => key.wf(),
        InputEventBody::KeyRelease(key) => key.wf(),
        InputEventBody::RelativeMove { axis, delta } => axis.wf(),
        InputEventBody::AbsoluteMove { axis, position } => axis.wf(),
        InputEventBody::Flush => true,
        InputEventBody::Dropped => true,
        InputEventBody::Other { kind, code, value } => kind.wf() && spec_decode_body(
            kind.spec_code(),
            code,
            value,
        ) == body,
    }
}

impl InputEvent {
    /// Decodes a wire record into its semantic form; the timestamp is
    /// carried over unchanged.
    pub fn from_raw(raw: &RawInputEvent) -> (r: InputEvent)
        ensures
            r.timestamp == raw.timestamp,
            r.body == spec_decode_body(raw.kind, raw.code, raw.value),
    {
        let kind = EventKind::from_code(raw.kind);
        let body = if kind == EventKind::Key && raw.value == 1 {
            InputEventBody::KeyPress(Key::from_code(raw.code))
        } else if kind == EventKind::Key && raw.value == 0 {
            InputEventBody::KeyRelease(Key::from_code(raw.code))
        } else if kind == EventKind::RelativeAxis {
            InputEventBody::RelativeMove {
                axis: RelativeAxis::from_code(raw.code),
                delta: raw.value,
            }
        } else if kind == EventKind::AbsoluteAxis {
            InputEventBody::AbsoluteMove {
                axis: AbsoluteAxis::from_code(raw.code),
                position: raw.value,
            }
        } else if kind == EventKind::Synchronization && raw.code == 0 && raw.value == 0 {
            InputEventBody::Flush
        } else if kind == EventKind::Synchronization && raw.code == 3 && raw.value == 0 {
            InputEventBody::Dropped
        } else {
            InputEventBody::Other { kind, code: raw.code, value: raw.value }
        };

        InputEvent { timestamp: raw.timestamp, body }
    }

    /// Encodes a semantic event back into its wire record; the
    /// timestamp is carried over unchanged.
    pub fn to_raw(&self) -> (r: RawInputEvent)
        ensures
            r.timestamp == self.timestamp,
            (r.kind, r.code, r.value) == spec_encode_body(self.body),
    {
        let (kind, code, value) = encode_body(&self.body);
        RawInputEvent { timestamp: self.timestamp, kind, code, value }
    }
}

/// Encodes a body into its raw (kind, code, value) triple.
pub fn encode_body(body: &InputEventBody) -> (r: (u16, u16, i32))
    ensures
        r == spec_encode_body(*body),
{
    match body {
        InputEventBody::KeyPress(key) => (EventKind::Key.raw(), key.raw(), 1),
        InputEventBody::KeyRelease(key) => (EventKind::Key.raw(), key.raw(), 0),
        InputEventBody::RelativeMove { axis, delta } => (
            EventKind::RelativeAxis.raw(),
            axis.raw(),
            *delta,
        ),
        InputEventBody::AbsoluteMove { axis, position } => (
            EventKind::AbsoluteAxis.raw(),
            axis.raw(),
            *position,
        ),
        InputEventBody::Flush => (EventKind::Synchronization.raw(), 0, 0),
        InputEventBody::Dropped => (EventKind::Synchronization.raw(), 3, 0),
        InputEventBody::Other { kind, code, value } => (kind.raw(), *code, *value),
    }
}

impl InputEventBody {
    /// The wire record that injects this event into a device. Emission
    /// always resets the timestamp to zero: a timestamp is a read-only
    /// attribute of events consumed from the kernel, never settable by
    /// the producer.
    pub fn to_raw_for_emit(&self) -> (r: RawInputEvent)
        ensures
            r.timestamp == (Timestamp { sec: 0, usec: 0 }),
            (r.kind, r.code, r.value) == spec_encode_body(*self),
    {
        let (kind, code, value) = encode_body(self);
        RawInputEvent { timestamp: Timestamp { sec: 0, usec: 0 }, kind, code, value }
    }
}

impl RawInputEvent {
    /// The exact byte image of this record on the wire: sec and usec as
    /// 64-bit little-endian fields, then kind and code as 16-bit fields,
    /// then the value as a 32-bit field.
    pub open spec fn spec_wire_bytes(self) -> Seq<u8> {
        vstd::bytes::spec_u64_to_le_bytes(self.timestamp.sec as u64) + vstd::bytes::spec_u64_to_le_bytes(
            self.timestamp.usec as u64,
        ) + vstd::bytes::spec_u16_to_le_bytes(self.kind) + vstd::bytes::spec_u16_to_le_bytes(
            self.code,
        ) + vstd::bytes::spec_u32_to_le_bytes(self.value as u32)
    }

    /// The record a 24-byte wire image decodes to.
    pub open spec fn spec_from_wire_bytes(s: Seq<u8>) -> RawInputEvent
        recommends
            s.len() == RAW_INPUT_EVENT_SIZE,
    {
        RawInputEvent {
            timestamp: Timestamp {
                sec: vstd::bytes::spec_u64_from_le_bytes(s.subrange(0, 8)) as i64,
                usec: vstd::bytes::spec_u64_from_le_bytes(s.subrange(8, 16)) as i64,
            },
            kind: vstd::bytes::spec_u16_from_le_bytes(s.subrange(16, 18)),
            code: vstd::bytes::spec_u16_from_le_bytes(s.subrange(18, 20)),
            value: vstd::bytes::spec_u32_from_le_bytes(s.subrange(20, 24)) as i32,
        }
    }

    /// Serializes the record for a single fixed-size write. The write
    /// itself must transfer exactly this many bytes in one operation;
    /// anything less desynchronizes the kernel's ring-buffer framing.
    pub fn to_wire_bytes(&self) -> (r: Vec<u8>)
        ensures
            r@ == self.spec_wire_bytes(),
            r@.len() == RAW_INPUT_EVENT_SIZE,
    {
        proof {
            vstd::bytes::lemma_auto_spec_u64_to_from_le_bytes();
            vstd::bytes::lemma_auto_spec_u16_to_from_le_bytes();
            vstd::bytes::lemma_auto_spec_u32_to_from_le_bytes();
        }
        let mut out = vstd::bytes::u64_to_le_bytes(self.timestamp.sec as u64);
        let mut part = vstd::bytes::u64_to_le_bytes(self.timestamp.usec as u64);
        out.append(&mut part);
        let mut part = vstd::bytes::u16_to_le_bytes(self.kind);
        out.append(&mut part);
        let mut part = vstd::bytes::u16_to_le_bytes(self.code);
        out.append(&mut part);
        let mut part = vstd::bytes::u32_to_le_bytes(self.value as u32);
        out.append(&mut part);
        out
    }

    /// Deserializes one record from a buffer holding exactly one wire
    /// image; any other length yields nothing.
    pub fn from_wire_bytes(bytes: &[u8]) -> (r: Option<RawInputEvent>)
        ensures
            r == if bytes@.len() == RAW_INPUT_EVENT_SIZE {
                Some(RawInputEvent::spec_from_wire_bytes(bytes@))
            } else {
                Option::<RawInputEvent>::None
            },
    {
        if bytes.len() != RAW_INPUT_EVENT_SIZE {
            return None;
        }
        let sec = vstd::bytes::u64_from_le_bytes(vstd::slice::slice_subrange(bytes, 0, 8)) as i64;
        let usec = vstd::bytes::u64_from_le_bytes(vstd::slice::slice_subrange(bytes, 8, 16)) as i64;
        let kind = vstd::bytes::u16_from_le_bytes(vstd::slice::slice_subrange(bytes, 16, 18));
        let code = vstd::bytes::u16_from_le_bytes(vstd::slice::slice_subrange(bytes, 18, 20));
        let value = vstd::bytes::u32_from_le_bytes(vstd::slice::slice_subrange(bytes, 20, 24)) as i32;
        Some(RawInputEvent { timestamp: Timestamp { sec, usec }, kind, code, value })
    }
}

/// Serializing a record and parsing the bytes back yields the record
/// unchanged: the wire image loses nothing.
pub proof fn lemma_wire_bytes_round_trip(event: RawInputEvent)
    ensures
        event.spec_wire_bytes().len() == RAW_INPUT_EVENT_SIZE,
        RawInputEvent::spec_from_wire_bytes(event.spec_wire_bytes()) == event,
{
    vstd::bytes::lemma_auto_spec_u64_to_from_le_bytes();
    vstd::bytes::lemma_auto_spec_u16_to_from_le_bytes();
    vstd::bytes::lemma_auto_spec_u32_to_from_le_bytes();
    let s = event.spec_wire_bytes();
    assert(s.subrange(0, 8) =~= vstd::bytes::spec_u64_to_le_bytes(event.timestamp.sec as u64));
    assert(s.subrange(8, 16) =~= vstd::bytes::spec_u64_to_le_bytes(event.timestamp.usec as u64));
    assert(s.subrange(16, 18) =~= vstd::bytes::spec_u16_to_le_bytes(event.kind));
    assert(s.subrange(18, 20) =~= vstd::bytes::spec_u16_to_le_bytes(event.code));
    assert(s.subrange(20, 24) =~= vstd::bytes::spec_u32_to_le_bytes(event.value as u32));
    let sec = event.timestamp.sec;
    let usec = event.timestamp.usec;
    let value = event.value;
    assert(((sec as u64) as i64) == sec) by (bit_vector);
    assert(((usec as u64) as i64) == usec) by (bit_vector);
    assert(((value as u32) as i32) == value) by (bit_vector);
}

/// Decoding a raw triple always yields a well-formed body.
pub proof fn lemma_decode_body_wf(kind: u16, code: u16, value: i32)
    ensures
        body_wf(spec_decode_body(kind, code, value)),
{
    crate::codes::lemma_eventkind_code_round_trip(kind);
    crate::codes::lemma_key_code_round_trip(code);
    crate::codes::lemma_relativeaxis_code_round_trip(code);
    crate::codes::lemma_absoluteaxis_code_round_trip(code);
}

/// Round trip one way: every well-formed body survives encoding to a
/// raw triple and decoding back.
pub proof fn lemma_decode_encode(body: InputEventBody)
    requires
        body_wf(body),
    ensures
        ({
            let (kind, code, value) = spec_encode_body(body);
            spec_decode_body(kind, code, value)
        }) == body,
{
}

/// Round trip the other way: every raw triple the decode rules
/// recognize (everything that does not fall through to `Other`)
/// re-encodes to exactly the triple it came from.
pub proof fn lemma_encode_decode(kind: u16, code: u16, value: i32)
    requires
        !(spec_decode_body(kind, code, value) is Other),
    ensures
        spec_encode_body(spec_decode_body(kind, code, value)) == (kind, code, value),
{
    crate::codes::lemma_key_code_round_trip(code);
    crate::codes::lemma_relativeaxis_code_round_trip(code);
    crate::codes::lemma_absoluteaxis_code_round_trip(code);
}

} // verus!
