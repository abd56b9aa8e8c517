//! The physical-device data model and the pure halves of its I/O
//! paths: identity records, capability descriptors, readiness-wait
//! classification, read-buffer framing, and the builders for injected
//! events.

use vstd::prelude::*;

use crate::codes::AbsoluteAxis;
use crate::codes::Bus;
use crate::codes::EventKind;
use crate::codes::ForceFeedback;
use crate::codes::FromCode;
use crate::codes::Key;
use crate::codes::RelativeAxis;
use crate::event::InputEventBody;
use crate::event::RawInputEvent;
use crate::event::RAW_INPUT_EVENT_SIZE;
use crate::force_feedback::ForceFeedbackEffectId;
use crate::force_feedback::RawForceFeedbackEffect;

verus! {

/// A device's immutable identity exactly as the kernel reports it.
#[derive(Copy, Clone, PartialEq, Eq, Structural, Debug)]
pub struct RawDeviceId {
    pub bus: u16,
    pub vendor: u16,
    pub product: u16,
    pub version: u16,
}

/// A device's immutable identity, with the bus decoded.
#[derive(Clone, PartialEq, Eq, Structural, Debug)]
pub struct DeviceId {
    pub bus: Bus,
    pub vendor: u16,
    pub product: u16,
    pub version: u16,
}

impl DeviceId {
    /// Decodes a kernel identity record.
    pub fn from_raw(raw: &RawDeviceId) -> (r: DeviceId)
        ensures
            r == (DeviceId {
                bus: <Bus as FromCode>::spec_from_code(raw.bus),
                vendor: raw.vendor,
                product: raw.product,
                version: raw.version,
            }),
    {
        DeviceId {
            bus: Bus::from_code(raw.bus),
            vendor: raw.vendor,
            product: raw.product,
            version: raw.version,
        }
    }

    /// Encodes an identity for a device-setup record.
    pub fn to_raw(&self) -> (r: RawDeviceId)
        ensures
            r == (RawDeviceId {
                bus: self.bus.spec_code(),
                vendor: self.vendor,
                product: self.product,
                version: self.version,
            }),
    {
        RawDeviceId {
            bus: self.bus.raw(),
            vendor: self.vendor,
            product: self.product,
            version: self.version,
        }
    }
}

/// One axis's calibration exactly as the kernel reports it.
#[derive(Copy, Clone, PartialEq, Eq, Structural, Debug)]
pub struct RawAbsInfo {
    /// Latest reported value for the axis.
    pub value: i32,
    /// Minimum value for the axis.
    pub minimum: i32,
    /// Maximum value for the axis.
    pub maximum: i32,
    /// Threshold for noise filtering.
    pub noise_threshold: i32,
    /// Deadzone.
    pub deadzone: i32,
    /// Resolution of the reported values.
    pub resolution: i32,
}

/// An absolute axis a device supports, together with its calibration.
#[derive(Clone, PartialEq, Eq, Structural, Debug)]
pub struct AbsoluteAxisBit {
    pub axis: AbsoluteAxis,
    pub initial_value: i32,
    pub minimum: i32,
    pub maximum: i32,
    pub noise_threshold: i32,
    pub deadzone: i32,
    pub resolution: i32,
}

impl AbsoluteAxisBit {
    /// A calibration only makes sense with a nonempty range.
    pub open spec fn wf(self) -> bool {
        self.maximum >= self.minimum
    }

    /// Builds a calibration descriptor, rejecting an empty range
    /// outright: a maximum below the minimum is never silently
    /// swapped.
    pub fn new(
        axis: AbsoluteAxis,
        initial_value: i32,
        minimum: i32,
        maximum: i32,
        noise_threshold: i32,
        deadzone: i32,
        resolution: i32,
    ) -> (r: Option<AbsoluteAxisBit>)
        ensures
            r is Some <==> maximum >= minimum,
            r matches Some(bit) ==> bit == (AbsoluteAxisBit {
                axis,
                initial_value,
                minimum,
                maximum,
                noise_threshold,
                deadzone,
                resolution,
            }) && bit.wf(),
    {
        if maximum >= minimum {
            Some(
                AbsoluteAxisBit {
                    axis,
                    initial_value,
                    minimum,
                    maximum,
                    noise_threshold,
                    deadzone,
                    resolution,
                },
            )
        } else {
            None
        }
    }

    /// The descriptor a kernel calibration query yields for an axis,
    /// field for field.
    pub fn from_info(axis: AbsoluteAxis, info: &RawAbsInfo) -> (r: AbsoluteAxisBit)
        ensures
            r == (AbsoluteAxisBit {
                axis,
                initial_value: info.value,
                minimum: info.minimum,
                maximum: info.maximum,
                noise_threshold: info.noise_threshold,
                deadzone: info.deadzone,
                resolution: info.resolution,
            }),
    {
        AbsoluteAxisBit {
            axis,
            initial_value: info.value,
            minimum: info.minimum,
            maximum: info.maximum,
            noise_threshold: info.noise_threshold,
            deadzone: info.deadzone,
            resolution: info.resolution,
        }
    }
}

/// One capability a device declares: a key, an axis (absolute axes
/// carry calibration), or a force-feedback family.
#[derive(Clone, PartialEq, Eq, Structural, Debug)]
pub enum EventBit {
    Key(Key),
    RelativeAxis(RelativeAxis),
    AbsoluteAxis(AbsoluteAxisBit),
    ForceFeedback(ForceFeedback),
}

/// The readiness bit of the kernel's wait primitive.
pub const POLLIN: i16 = 0x001;

/// The peer-hang-up bit of the kernel's wait primitive.
pub const POLLHUP: i16 = 0x010;

/// What one readiness wait concluded.
#[derive(Copy, Clone, PartialEq, Eq, Structural, Debug)]
pub enum PollOutcome {
    /// Data can be read, or the peer hung up.
    Ready,
    /// Nothing to read yet; the caller may simply poll again.
    NotReady,
    /// A genuine wait failure, to be reported with its OS error.
    Failed,
}

/// Classifies what the kernel's readiness wait returned. A wait cut
/// short by signal delivery is not a failure and not readiness: it
/// counts as not-ready, and the caller retries. A successful wait
/// reports ready exactly when data is readable or the peer hung up.
pub fn interpret_poll(result: i32, interrupted: bool, revents: i16) -> (r: PollOutcome)
    ensures
        result < 0 && interrupted ==> r == PollOutcome::NotReady,
        result < 0 && !interrupted ==> r == PollOutcome::Failed,
        result == 0 ==> r == PollOutcome::NotReady,
        result > 0 ==> r == if revents & (POLLIN | POLLHUP) != 0 {
            PollOutcome::Ready
        } else {
            PollOutcome::NotReady
        },
{
    if result < 0 {
        if interrupted {
            PollOutcome::NotReady
        } else {
            PollOutcome::Failed
        }
    } else if result == 0 {
        PollOutcome::NotReady
    } else if revents & (POLLIN | POLLHUP) != 0 {
        PollOutcome::Ready
    } else {
        PollOutcome::NotReady
    }
}

/// What one fixed-size read produced.
#[derive(Clone, PartialEq, Eq, Structural, Debug)]
pub enum ReadOutcome {
    /// Exactly one wire record arrived.
    Event(RawInputEvent),
    /// A ready signal with nothing behind it: no event was actually
    /// available.
    NoEvent,
    /// A partial record: continuing would desynchronize the kernel's
    /// ring-buffer framing, so this is no ordinary I/O error.
    FramingViolation,
}

/// Interprets the bytes one read call handed back: a whole record
/// decodes, an empty read means no event, anything in between breaks
/// the framing.
pub fn interpret_read(bytes: &[u8]) -> (r: ReadOutcome)
    ensures
        bytes@.len() == RAW_INPUT_EVENT_SIZE ==> r == ReadOutcome::Event(
            RawInputEvent::spec_from_wire_bytes(bytes@),
        ),
        bytes@.len() == 0 ==> r == ReadOutcome::NoEvent,
        bytes@.len() != 0 && bytes@.len() != RAW_INPUT_EVENT_SIZE ==> r
            == ReadOutcome::FramingViolation,
{
    if bytes.len() == 0 {
        ReadOutcome::NoEvent
    } else {
        match RawInputEvent::from_wire_bytes(bytes) {
            Some(event) => ReadOutcome::Event(event),
            None => ReadOutcome::FramingViolation,
        }
    }
}

/// Prepares an effect record for upload: the id field is overwritten
/// with the sentinel asking the kernel to assign a fresh handle,
/// everything else crosses unchanged.
pub fn prepare_upload(effect: &RawForceFeedbackEffect) -> (r: RawForceFeedbackEffect)
    ensures
        r.id == -1i16,
        r.kind == effect.kind,
        r.direction == effect.direction,
        r.trigger == effect.trigger,
        r.replay == effect.replay,
        r.body@ == effect.body@,
{
    let mut prepared = *effect;
    prepared.id = -1;
    prepared
}

/// The injected event that starts a previously uploaded effect: a
/// force-feedback-kind event carrying the handle as its code and the
/// repeat count as its value.
pub fn enable_effect_body(effect_id: ForceFeedbackEffectId, cycle_count: i32) -> (r:
    InputEventBody)
    ensures
        r == (InputEventBody::Other {
            kind: EventKind::ForceFeedback,
            code: effect_id.spec_value() as u16,
            value: cycle_count,
        }),
{
    InputEventBody::Other {
        kind: EventKind::ForceFeedback,
        code: effect_id.code(),
        value: cycle_count,
    }
}

/// The injected event that stops a running effect: as for starting,
/// with a zero repeat count.
pub fn disable_effect_body(effect_id: ForceFeedbackEffectId) -> (r: InputEventBody)
    ensures
        r == (InputEventBody::Other {
            kind: EventKind::ForceFeedback,
            code: effect_id.spec_value() as u16,
            value: 0,
        }),
{
    InputEventBody::Other { kind: EventKind::ForceFeedback, code: effect_id.code(), value: 0 }
}

/// The meaningful bytes of a string-returning control request: the
/// kernel reports how many bytes it wrote, counting the terminator,
/// which is not part of the name. A reported length of zero, or one
/// beyond the buffer, names nothing.
pub fn ioctl_string_bytes(buffer: &[u8], length: usize) -> (r: Option<Vec<u8>>)
    ensures
        r is Some <==> 1 <= length <= buffer@.len(),
        r matches Some(v) ==> v@ == buffer@.subrange(0, length - 1),
{
    if 1 <= length && length <= buffer.len() {
        Some(vstd::slice::slice_to_vec(vstd::slice::slice_subrange(buffer, 0, length - 1)))
    } else {
        None
    }
}

/// Whether a sysfs child name is an event node: it begins with the
/// five bytes of `event`.
pub open spec fn spec_is_event_node_name(name: Seq<u8>) -> bool {
    &&& name.len() >= 5
    &&& name[0] == 101
    &&& name[1] == 118
    &&& name[2] == 101
    &&& name[3] == 110
    &&& name[4] == 116
}

/// Whether a sysfs child name is an event node: it begins with the
/// five bytes of `event`.
pub fn is_event_node_name(name: &[u8]) -> (r: bool)
    ensures
        r == spec_is_event_node_name(name@),
{
    name.len() >= 5 && *vstd::slice::slice_index_get(name, 0) == 101u8
        && *vstd::slice::slice_index_get(name, 1) == 118u8
        && *vstd::slice::slice_index_get(name, 2) == 101u8
        && *vstd::slice::slice_index_get(name, 3) == 110u8
        && *vstd::slice::slice_index_get(name, 4) == 116u8
}

} // verus!
