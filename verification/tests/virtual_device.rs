//! The virtual-device planner and request stream on concrete values:
//! the name-length gate, the planned declaration sequence, request
//! classification, and the finalize-once latch.

use evinput::AbsoluteAxis;
use evinput::AbsoluteAxisBit;
use evinput::Bus;
use evinput::DeviceCreateError;
use evinput::DeviceId;
use evinput::DeviceSetupPlan;
use evinput::EventBit;
use evinput::FinalizeOnce;
use evinput::ForceFeedback;
use evinput::ForceFeedbackEventClass;
use evinput::Key;
use evinput::RawInputEvent;
use evinput::SetupCall;
use evinput::Timestamp;
use evinput::classify_force_feedback_event;
use evinput::EV_UINPUT;
use evinput::UI_FF_ERASE;
use evinput::UI_FF_UPLOAD;

fn device_id() -> DeviceId {
    DeviceId { bus: Bus::Virtual, vendor: 1, product: 2, version: 3 }
}

#[test]
fn name_of_eighty_bytes_is_rejected_before_any_declaration() {
    let name = [b'x'; 80];
    let result = DeviceSetupPlan::build(&device_id(), &name, &Vec::new());
    assert!(matches!(result, Err(DeviceCreateError::DeviceNameTooLong)));
}

#[test]
fn name_of_seventy_nine_bytes_is_accepted() {
    let name = [b'x'; 79];
    let plan = DeviceSetupPlan::build(&device_id(), &name, &Vec::new()).unwrap();
    assert_eq!(plan.setup.name[0], b'x');
    assert_eq!(plan.setup.name[78], b'x');
    assert_eq!(plan.setup.name[79], 0);
}

#[test]
fn plan_declares_capabilities_in_order() {
    let axis_bit = AbsoluteAxisBit::new(AbsoluteAxis::X, 0, -10, 30, 1, 2, 3).unwrap();
    let bits = vec![
        EventBit::Key(Key::A),
        EventBit::AbsoluteAxis(axis_bit),
        EventBit::ForceFeedback(ForceFeedback::Rumble),
    ];
    let plan = DeviceSetupPlan::build(&device_id(), b"pad", &bits).unwrap();

    assert_eq!(plan.calls.len(), 7);
    assert_eq!(plan.calls[0], SetupCall::SetKeyBit(30));
    assert_eq!(plan.calls[1], SetupCall::SetAbsoluteAxisBit(0));
    match &plan.calls[2] {
        SetupCall::AbsSetup(setup) => {
            assert_eq!(setup.axis, 0);
            // The initial value sits at the middle of the axis range.
            assert_eq!(setup.info.value, 10);
            assert_eq!(setup.info.minimum, -10);
            assert_eq!(setup.info.maximum, 30);
        },
        other => panic!("expected a calibration declaration, got {:?}", other),
    }
    assert_eq!(plan.calls[3], SetupCall::SetForceFeedbackBit(0x50));
    // The touched kinds follow: key, absolute axis, force feedback.
    assert_eq!(plan.calls[4], SetupCall::SetEventKindBit(0x01));
    assert_eq!(plan.calls[5], SetupCall::SetEventKindBit(0x03));
    assert_eq!(plan.calls[6], SetupCall::SetEventKindBit(0x15));

    assert_eq!(plan.setup.force_feedback_effects_max, 1);
    assert_eq!(plan.setup.id.bus, 0x06);
    assert_eq!(&plan.setup.name[0..4], &[b'p', b'a', b'd', 0]);
}

#[test]
fn plan_without_force_feedback_allows_no_effects() {
    let bits = vec![EventBit::Key(Key::Enter)];
    let plan = DeviceSetupPlan::build(&device_id(), b"kbd", &bits).unwrap();
    assert_eq!(plan.setup.force_feedback_effects_max, 0);
    assert_eq!(plan.calls.len(), 2);
    assert_eq!(plan.calls[1], SetupCall::SetEventKindBit(0x01));
}

fn stream_event(kind: u16, code: u16, value: i32) -> RawInputEvent {
    RawInputEvent { timestamp: Timestamp { sec: 0, usec: 0 }, kind, code, value }
}

#[test]
fn classify_upload_and_erase_requests() {
    assert_eq!(
        classify_force_feedback_event(&stream_event(EV_UINPUT, UI_FF_UPLOAD, 44)),
        ForceFeedbackEventClass::UploadRequest(44)
    );
    assert_eq!(
        classify_force_feedback_event(&stream_event(EV_UINPUT, UI_FF_ERASE, 45)),
        ForceFeedbackEventClass::EraseRequest(45)
    );
}

#[test]
fn classify_enable_disable_by_sign() {
    assert_eq!(
        classify_force_feedback_event(&stream_event(0x15, 2, 3)),
        ForceFeedbackEventClass::Enable { effect_id: 2, cycle_count: 3 }
    );
    assert_eq!(
        classify_force_feedback_event(&stream_event(0x15, 2, 0)),
        ForceFeedbackEventClass::Disable { effect_id: 2 }
    );
    assert_eq!(
        classify_force_feedback_event(&stream_event(0x15, 2, -1)),
        ForceFeedbackEventClass::Disable { effect_id: 2 }
    );
}

#[test]
fn classify_gain_range_passes_through() {
    assert_eq!(
        classify_force_feedback_event(&stream_event(0x15, 0x60, 0xffff)),
        ForceFeedbackEventClass::Other { code: 0x60, value: 0xffff }
    );
}

#[test]
fn classify_foreign_kind_is_violation() {
    assert_eq!(
        classify_force_feedback_event(&stream_event(0x01, 30, 1)),
        ForceFeedbackEventClass::ProtocolViolation
    );
    assert_eq!(
        classify_force_feedback_event(&stream_event(EV_UINPUT, 9, 1)),
        ForceFeedbackEventClass::ProtocolViolation
    );
}

#[test]
fn finalization_runs_exactly_once() {
    // Explicit completion, then the guard's own cleanup.
    let mut latch = FinalizeOnce::new();
    assert!(latch.try_acquire());
    assert!(!latch.try_acquire());

    // No explicit completion: the single cleanup is granted.
    let mut dropped_only = FinalizeOnce::new();
    assert!(dropped_only.try_acquire());
    assert!(!dropped_only.try_acquire());
    assert!(!dropped_only.try_acquire());
}
