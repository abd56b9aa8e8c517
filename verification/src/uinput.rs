//! The virtual-device creation protocol and the force-feedback
//! request stream: the setup records of the synthetic-device
//! interface, the planner that turns a capability set into the exact
//! sequence of declarations the runtime must issue, the classifier
//! for kernel-initiated force-feedback requests, and the latch that
//! makes transaction finalization run exactly once.

use vstd::prelude::*;

use crate::codes::EventKind;
use crate::device::DeviceId;
use crate::device::EventBit;
use crate::device::RawAbsInfo;
use crate::device::RawDeviceId;
use crate::event::RawInputEvent;
use crate::force_feedback::FF_GAIN;
use crate::force_feedback::RawForceFeedbackEffect;

verus! {

/// The kind code of the synthetic-device interface's meta-events.
pub const EV_UINPUT: u16 = 0x0101;

/// The meta-event code announcing an upload transaction.
pub const UI_FF_UPLOAD: u16 = 1;

/// The meta-event code announcing an erase transaction.
pub const UI_FF_ERASE: u16 = 2;

/// The size of the fixed on-wire device-name field; the name must
/// leave room for its required terminator.
pub const DEVICE_NAME_SIZE: usize = 80;

/// The fixed device-setup record: identity, a zero-padded name field,
/// and the maximum number of concurrent force-feedback effects.
#[derive(Copy, Clone, Debug)]
pub struct RawDeviceSetup {
    pub id: RawDeviceId,
    pub name: [u8; 80],
    pub force_feedback_effects_max: u32,
}

/// The fixed per-axis calibration record of the setup protocol.
#[derive(Copy, Clone, PartialEq, Eq, Structural, Debug)]
pub struct RawAbsSetup {
    pub axis: u16,
    pub info: RawAbsInfo,
}

/// The kernel-filled record of one upload transaction: the request
/// id, the result to report back, and the effect to store.
#[derive(Copy, Clone, Debug)]
pub struct RawForceFeedbackUpload {
    pub request_id: u32,
    pub return_value: i32,
    pub effect: RawForceFeedbackEffect,
    pub old_effect: RawForceFeedbackEffect,
}

/// The kernel-filled record of one erase transaction.
#[derive(Copy, Clone, PartialEq, Eq, Structural, Debug)]
pub struct RawForceFeedbackErase {
    pub request_id: u32,
    pub return_value: i32,
    pub effect_id: u32,
}

/// Which phase of virtual-device creation failed, so a pre-flight
/// rejection can be told from a kernel one; the setup, activation and
/// I/O variants carry the underlying OS error code.
#[derive(Copy, Clone, PartialEq, Eq, Structural, Debug)]
pub enum DeviceCreateError {
    /// The display name cannot fit the fixed on-wire field with its
    /// terminator; nothing was declared to the kernel.
    DeviceNameTooLong,
    /// A capability or metadata declaration was rejected.
    DeviceSetupFailed(i32),
    /// The final activation call was rejected.
    DeviceCreateFailed(i32),
    /// Opening the synthetic-device interface failed.
    IoFailure(i32),
}

/// One declaration the runtime must issue, in order, before a virtual
/// device is activated.
#[derive(Clone, PartialEq, Eq, Structural, Debug)]
pub enum SetupCall {
    SetKeyBit(u16),
    SetRelativeAxisBit(u16),
    SetAbsoluteAxisBit(u16),
    AbsSetup(RawAbsSetup),
    SetForceFeedbackBit(u16),
    SetEventKindBit(u16),
}

/// The calibration record an absolute-axis capability declares: the
/// initial value is seated at the middle of the axis range.
pub open spec fn spec_abs_setup(bit: crate::device::AbsoluteAxisBit) -> RawAbsSetup
    recommends
        bit.wf(),
{
    RawAbsSetup {
        axis: bit.axis.spec_code(),
        info: RawAbsInfo {
            value: ((bit.maximum - bit.minimum) / 2 + bit.minimum) as i32,
            minimum: bit.minimum,
            maximum: bit.maximum,
            noise_threshold: bit.noise_threshold,
            deadzone: bit.deadzone,
            resolution: bit.resolution,
        },
    }
}

/// The declarations one capability element demands: its own bit, and
/// for an absolute axis also its calibration.
pub open spec fn spec_calls_for_bit(bit: EventBit) -> Seq<SetupCall> {
    match bit {
        EventBit::Key(key) => seq![SetupCall::SetKeyBit(key.spec_code())],
        EventBit::RelativeAxis(axis) => seq![SetupCall::SetRelativeAxisBit(axis.spec_code())],
        EventBit::AbsoluteAxis(descriptor) => seq![
            SetupCall::SetAbsoluteAxisBit(descriptor.axis.spec_code()),
            SetupCall::AbsSetup(spec_abs_setup(descriptor)),
        ],
        EventBit::ForceFeedback(bit) => seq![SetupCall::SetForceFeedbackBit(bit.spec_code())],
    }
}

/// Whether the capability set touches the key kind.
pub open spec fn spec_has_key_bit(bits: Seq<EventBit>) -> bool {
    exists|i: int| 0 <= i < bits.len() && bits[i] is Key
}

/// Whether the capability set touches the relative-axis kind.
pub open spec fn spec_has_relative_axis_bit(bits: Seq<EventBit>) -> bool {
    exists|i: int| 0 <= i < bits.len() && bits[i] is RelativeAxis
}

/// Whether the capability set touches the absolute-axis kind.
pub open spec fn spec_has_absolute_axis_bit(bits: Seq<EventBit>) -> bool {
    exists|i: int| 0 <= i < bits.len() && bits[i] is AbsoluteAxis
}

/// Whether the capability set touches the force-feedback kind.
pub open spec fn spec_has_force_feedback_bit(bits: Seq<EventBit>) -> bool {
    exists|i: int| 0 <= i < bits.len() && bits[i] is ForceFeedback
}

/// The event kinds the capability set touched, declared after the
/// per-capability bits, in the fixed order of the kinds.
pub open spec fn spec_kind_calls(bits: Seq<EventBit>) -> Seq<SetupCall> {
    (if spec_has_key_bit(bits) {
        seq![SetupCall::SetEventKindBit(EventKind::Key.spec_code())]
    } else {
        Seq::empty()
    }) + (if spec_has_relative_axis_bit(bits) {
        seq![SetupCall::SetEventKindBit(EventKind::RelativeAxis.spec_code())]
    } else {
        Seq::empty()
    }) + (if spec_has_absolute_axis_bit(bits) {
        seq![SetupCall::SetEventKindBit(EventKind::AbsoluteAxis.spec_code())]
    } else {
        Seq::empty()
    }) + (if spec_has_force_feedback_bit(bits) {
        seq![SetupCall::SetEventKindBit(EventKind::ForceFeedback.spec_code())]
    } else {
        Seq::empty()
    })
}

/// Every declaration the capability set demands, in the order the
/// runtime must issue them.
pub open spec fn spec_setup_calls(bits: Seq<EventBit>) -> Seq<SetupCall> {
    bits.map_values(|bit: EventBit| spec_calls_for_bit(bit)).flatten() + spec_kind_calls(bits)
}

/// The fixed name field: the name's bytes, zero-padded to the field's
/// size.
pub open spec fn spec_name_field(name: Seq<u8>) -> Seq<u8> {
    Seq::new(
        DEVICE_NAME_SIZE as nat,
        |i: int|
            if i < name.len() {
                name[i]
            } else {
                0u8
            },
    )
}

/// Extending a capability prefix by one element extends which kinds
/// it touches in the obvious way.
proof fn lemma_has_bits_push(bits: Seq<EventBit>, bit: EventBit)
    ensures
        spec_has_key_bit(bits.push(bit)) == (spec_has_key_bit(bits) || bit is Key),
        spec_has_relative_axis_bit(bits.push(bit)) == (spec_has_relative_axis_bit(bits)
            || bit is RelativeAxis),
        spec_has_absolute_axis_bit(bits.push(bit)) == (spec_has_absolute_axis_bit(bits)
            || bit is AbsoluteAxis),
        spec_has_force_feedback_bit(bits.push(bit)) == (spec_has_force_feedback_bit(bits)
            || bit is ForceFeedback),
{
    let extended = bits.push(bit);
    assert(extended[bits.len() as int] == bit);
    assert forall|i: int| 0 <= i < bits.len() implies extended[i] == bits[i] by {}
    if spec_has_key_bit(extended) {
        let i = choose|i: int| 0 <= i < extended.len() && extended[i] is Key;
        assert(i < bits.len() || extended[i] == bit);
    }
    if spec_has_relative_axis_bit(extended) {
        let i = choose|i: int| 0 <= i < extended.len() && extended[i] is RelativeAxis;
        assert(i < bits.len() || extended[i] == bit);
    }
    if spec_has_absolute_axis_bit(extended) {
        let i = choose|i: int| 0 <= i < extended.len() && extended[i] is AbsoluteAxis;
        assert(i < bits.len() || extended[i] == bit);
    }
    if spec_has_force_feedback_bit(extended) {
        let i = choose|i: int| 0 <= i < extended.len() && extended[i] is ForceFeedback;
        assert(i < bits.len() || extended[i] == bit);
    }
}

/// The whole creation protocol, planned without touching the kernel:
/// the ordered declarations and the final setup record.
pub struct DeviceSetupPlan {
    /// The declarations to issue, in order, against the opened
    /// synthetic-device handle.
    pub calls: Vec<SetupCall>,
    /// The metadata record to declare after the capability bits, just
    /// before activation.
    pub setup: RawDeviceSetup,
}

impl DeviceSetupPlan {
    /// Plans virtual-device creation from an identity, a display name
    /// and a capability set. A name that cannot fit the fixed on-wire
    /// field with its required terminator is rejected here, before any
    /// kernel interaction; nothing else can fail. The maximum
    /// concurrent effect count is one exactly when some force-feedback
    /// capability is declared.
    pub fn build(id: &DeviceId, name: &[u8], event_bits: &Vec<EventBit>) -> (r: Result<
        DeviceSetupPlan,
        DeviceCreateError,
    >)
        requires
            forall|i: int|
                0 <= i < event_bits@.len() ==> (#[trigger] event_bits@[i] matches
                    EventBit::AbsoluteAxis(descriptor) ==> descriptor.wf()),
        ensures
            r is Ok <==> name@.len() < DEVICE_NAME_SIZE,
            r matches Ok(plan) ==> {
                &&& plan.calls@ == spec_setup_calls(event_bits@)
                &&& plan.setup.id == (RawDeviceId {
                    bus: id.bus.spec_code(),
                    vendor: id.vendor,
                    product: id.product,
                    version: id.version,
                })
                &&& plan.setup.name@ == spec_name_field(name@)
                &&& plan.setup.force_feedback_effects_max == if spec_has_force_feedback_bit(
                    event_bits@,
                ) {
                    1u32
                } else {
                    0u32
                }
            },
            r matches Err(e) ==> e == DeviceCreateError::DeviceNameTooLong && name@.len()
                >= DEVICE_NAME_SIZE,
    {
        if name.len() >= DEVICE_NAME_SIZE {
            return Err(DeviceCreateError::DeviceNameTooLong);
        }

        let ghost all_bits = event_bits@;
        let mut calls: Vec<SetupCall> = Vec::new();
        let mut has_key = false;
        let mut has_relative_axis = false;
        let mut has_absolute_axis = false;
        let mut has_force_feedback = false;

        proof {
            assert(all_bits.take(0).map_values(|bit: EventBit| spec_calls_for_bit(bit)).flatten()
                =~= Seq::<SetupCall>::empty());
        }

        let mut i: usize = 0;
        while i < event_bits.len()
            invariant
                i <= all_bits.len(),
                all_bits == event_bits@,
                forall|j: int|
                    0 <= j < all_bits.len() ==> (#[trigger] all_bits[j] matches
                        EventBit::AbsoluteAxis(descriptor) ==> descriptor.wf()),
                calls@ == all_bits.take(i as int).map_values(
                    |bit: EventBit| spec_calls_for_bit(bit),
                ).flatten(),
                has_key == spec_has_key_bit(all_bits.take(i as int)),
                has_relative_axis == spec_has_relative_axis_bit(all_bits.take(i as int)),
                has_absolute_axis == spec_has_absolute_axis_bit(all_bits.take(i as int)),
                has_force_feedback == spec_has_force_feedback_bit(all_bits.take(i as int)),
            decreases all_bits.len() - i,
        {
            let ghost prefix = all_bits.take(i as int);
            let ghost current = all_bits[i as int];

            match &event_bits[i] {
                EventBit::Key(key) => {
                    calls.push(SetupCall::SetKeyBit(key.raw()));
                    has_key = true;
                },
                EventBit::RelativeAxis(axis) => {
                    calls.push(SetupCall::SetRelativeAxisBit(axis.raw()));
                    has_relative_axis = true;
                },
                EventBit::AbsoluteAxis(descriptor) => {
                    calls.push(SetupCall::SetAbsoluteAxisBit(descriptor.axis.raw()));

                    let range = (descriptor.maximum as i64 - descriptor.minimum as i64) as u64;
                    let initial = ((range / 2) as i64 + descriptor.minimum as i64) as i32;
                    calls.push(
                        SetupCall::AbsSetup(
                            RawAbsSetup {
                                axis: descriptor.axis.raw(),
                                info: RawAbsInfo {
                                    value: initial,
                                    minimum: descriptor.minimum,
                                    maximum: descriptor.maximum,
                                    noise_threshold: descriptor.noise_threshold,
                                    deadzone: descriptor.deadzone,
                                    resolution: descriptor.resolution,
                                },
                            },
                        ),
                    );
                    has_absolute_axis = true;
                },
                EventBit::ForceFeedback(bit) => {
                    calls.push(SetupCall::SetForceFeedbackBit(bit.raw()));
                    has_force_feedback = true;
                },
            }

            proof {
                lemma_has_bits_push(prefix, current);
                assert(all_bits.take(i + 1) =~= prefix.push(current));
                let to_calls = |bit: EventBit| spec_calls_for_bit(bit);
                assert(all_bits.take(i + 1).map_values(to_calls) =~= prefix.map_values(
                    to_calls,
                ).push(spec_calls_for_bit(current)));
                prefix.map_values(to_calls).lemma_flatten_push(spec_calls_for_bit(current));
                assert(calls@ =~= all_bits.take(i + 1).map_values(to_calls).flatten());
            }

            i = i + 1;
        }

        proof {
            assert(all_bits.take(all_bits.len() as int) =~= all_bits);
        }

        if has_key {
            calls.push(SetupCall::SetEventKindBit(EventKind::Key.raw()));
        }
        if has_relative_axis {
            calls.push(SetupCall::SetEventKindBit(EventKind::RelativeAxis.raw()));
        }
        if has_absolute_axis {
            calls.push(SetupCall::SetEventKindBit(EventKind::AbsoluteAxis.raw()));
        }
        if has_force_feedback {
            calls.push(SetupCall::SetEventKindBit(EventKind::ForceFeedback.raw()));
        }

        proof {
            assert(calls@ =~= spec_setup_calls(all_bits));
        }

        let mut name_field = [0u8; 80];
        let mut j: usize = 0;
        while j < name.len()
            invariant
                j <= name@.len(),
                name@.len() < DEVICE_NAME_SIZE,
                name_field@.len() == DEVICE_NAME_SIZE,
                forall|k: int| 0 <= k < j ==> name_field@[k] == name@[k],
                forall|k: int| j <= k < DEVICE_NAME_SIZE ==> name_field@[k] == 0,
            decreases name@.len() - j,
        {
            name_field[j] = *vstd::slice::slice_index_get(name, j);
            j = j + 1;
        }

        proof {
            assert(name_field@ =~= spec_name_field(name@));
        }

        let setup = RawDeviceSetup {
            id: id.to_raw(),
            name: name_field,
            force_feedback_effects_max: if has_force_feedback {
                1
            } else {
                0
            },
        };

        Ok(DeviceSetupPlan { calls, setup })
    }
}

/// What one event read from a virtual device's stream means for the
/// force-feedback protocol.
#[derive(Clone, PartialEq, Eq, Structural, Debug)]
pub enum ForceFeedbackEventClass {
    /// A kernel-initiated upload transaction; carries the request id
    /// to hand to the begin-upload call.
    UploadRequest(u32),
    /// A kernel-initiated erase transaction; carries the request id to
    /// hand to the begin-erase call.
    EraseRequest(u32),
    /// Start a stored effect this many times.
    Enable { effect_id: u16, cycle_count: i32 },
    /// Stop a stored effect.
    Disable { effect_id: u16 },
    /// A force-feedback event in the gain sub-range and above,
    /// preserved verbatim.
    Other { code: u16, value: i32 },
    /// Any other kind: the stream must only ever carry the above, so
    /// reading this is a fatal protocol violation.
    ProtocolViolation,
}

/// Classifies one event read from a virtual device's stream: the
/// interface's meta-events open upload or erase transactions; a
/// force-feedback-kind event below the gain sub-range starts or stops
/// an effect by the sign of its value, at or above it passes through
/// verbatim; nothing else may appear on this path.
pub fn classify_force_feedback_event(event: &RawInputEvent) -> (r: ForceFeedbackEventClass)
    ensures
        event.kind == EV_UINPUT && event.code == UI_FF_UPLOAD ==> r
            == ForceFeedbackEventClass::UploadRequest(event.value as u32),
        event.kind == EV_UINPUT && event.code == UI_FF_ERASE ==> r
            == ForceFeedbackEventClass::EraseRequest(event.value as u32),
        event.kind == EventKind::ForceFeedback.spec_code() ==> r == if event.code < FF_GAIN {
            if event.value > 0 {
                ForceFeedbackEventClass::Enable { effect_id: event.code, cycle_count: event.value }
            } else {
                ForceFeedbackEventClass::Disable { effect_id: event.code }
            }
        } else {
            ForceFeedbackEventClass::Other { code: event.code, value: event.value }
        },
        !(event.kind == EV_UINPUT && (event.code == UI_FF_UPLOAD || event.code == UI_FF_ERASE))
            && event.kind != EventKind::ForceFeedback.spec_code() ==> r
            == ForceFeedbackEventClass::ProtocolViolation,
{
    if event.kind == EV_UINPUT && event.code == UI_FF_UPLOAD {
        ForceFeedbackEventClass::UploadRequest(event.value as u32)
    } else if event.kind == EV_UINPUT && event.code == UI_FF_ERASE {
        ForceFeedbackEventClass::EraseRequest(event.value as u32)
    } else if event.kind == EventKind::ForceFeedback.raw() {
        if event.code < FF_GAIN {
            if event.value > 0 {
                ForceFeedbackEventClass::Enable { effect_id: event.code, cycle_count: event.value }
            } else {
                ForceFeedbackEventClass::Disable { effect_id: event.code }
            }
        } else {
            ForceFeedbackEventClass::Other { code: event.code, value: event.value }
        }
    } else {
        ForceFeedbackEventClass::ProtocolViolation
    }
}

/// The idempotency latch of a force-feedback transaction guard: the
/// finalizing control request must reach the kernel exactly once,
/// whether completion is explicit, implicit when the guard is
/// discarded, or both.
#[derive(Clone, PartialEq, Eq, Structural, Debug)]
pub struct FinalizeOnce {
    finished: bool,
}

impl FinalizeOnce {
    /// Whether the right to finalize has already been claimed.
    pub closed spec fn spec_finished(self) -> bool {
        self.finished
    }

    /// A fresh latch: nothing has run yet.
    pub fn new() -> (r: FinalizeOnce)
        ensures
            !r.spec_finished(),
    {
        FinalizeOnce { finished: false }
    }

    /// Claims the right to finalize: granted the first time, refused
    /// ever after. The holder performs the kernel call exactly when
    /// this returns true.
    pub fn try_acquire(&mut self) -> (r: bool)
        ensures
            r == !old(self).spec_finished(),
            final(self).spec_finished(),
    {
        let granted = !self.finished;
        self.finished = true;
        granted
    }
}

/// Finalization runs exactly once: from a fresh latch, the first
/// claim — an explicit completion or the guard's own cleanup — is
/// granted, and whatever claims again, cleanup after completion or a
/// second cleanup, is refused.
pub proof fn lemma_finalize_exactly_once(
    start: FinalizeOnce,
    after_first: FinalizeOnce,
    first_granted: bool,
    after_second: FinalizeOnce,
    second_granted: bool,
)
    requires
        !start.spec_finished(),
        first_granted == !start.spec_finished(),
        after_first.spec_finished(),
        second_granted == !after_first.spec_finished(),
        after_second.spec_finished(),
    ensures
        first_granted,
        !second_granted,
{
}

} // verus!
