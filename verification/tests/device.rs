//! The physical-device helpers on concrete values: identity
//! conversion, calibration descriptors, poll classification and read
//! framing.

use evinput::AbsoluteAxis;
use evinput::AbsoluteAxisBit;
use evinput::Bus;
use evinput::DeviceId;
use evinput::ForceFeedbackEffectId;
use evinput::InputEventBody;
use evinput::EventKind;
use evinput::PollOutcome;
use evinput::RawAbsInfo;
use evinput::RawDeviceId;
use evinput::RawInputEvent;
use evinput::ReadOutcome;
use evinput::Timestamp;
use evinput::disable_effect_body;
use evinput::enable_effect_body;
use evinput::interpret_poll;
use evinput::interpret_read;
use evinput::ioctl_string_bytes;
use evinput::is_event_node_name;
use evinput::prepare_upload;
use evinput::POLLHUP;
use evinput::POLLIN;

#[test]
fn device_id_round_trip() {
    let raw = RawDeviceId { bus: 0x03, vendor: 0x045e, product: 0x028e, version: 0x0110 };
    let id = DeviceId::from_raw(&raw);
    assert_eq!(id.bus, Bus::USB);
    assert_eq!(id.to_raw(), raw);

    let odd = RawDeviceId { bus: 0x42, vendor: 1, product: 2, version: 3 };
    assert_eq!(DeviceId::from_raw(&odd).bus, Bus::Other(0x42));
    assert_eq!(DeviceId::from_raw(&odd).to_raw(), odd);
}

#[test]
fn absolute_axis_bit_rejects_empty_range() {
    assert!(AbsoluteAxisBit::new(AbsoluteAxis::X, 0, 10, 9, 0, 0, 0).is_none());
    let bit = AbsoluteAxisBit::new(AbsoluteAxis::X, 5, -10, 10, 1, 2, 3).unwrap();
    assert_eq!(bit.minimum, -10);
    assert_eq!(bit.maximum, 10);
    let flat = AbsoluteAxisBit::new(AbsoluteAxis::Y, 0, 4, 4, 0, 0, 0).unwrap();
    assert_eq!(flat.maximum, 4);
}

#[test]
fn absolute_axis_bit_from_info() {
    let info = RawAbsInfo {
        value: 1,
        minimum: -8,
        maximum: 8,
        noise_threshold: 2,
        deadzone: 3,
        resolution: 4,
    };
    let bit = AbsoluteAxisBit::from_info(AbsoluteAxis::RZ, &info);
    assert_eq!(bit.axis, AbsoluteAxis::RZ);
    assert_eq!(bit.initial_value, 1);
    assert_eq!(bit.resolution, 4);
}

#[test]
fn interrupted_poll_reports_not_ready() {
    assert_eq!(interpret_poll(-1, true, 0), PollOutcome::NotReady);
    assert_eq!(interpret_poll(-1, true, POLLIN), PollOutcome::NotReady);
}

#[test]
fn failed_poll_reports_failure() {
    assert_eq!(interpret_poll(-1, false, 0), PollOutcome::Failed);
}

#[test]
fn poll_readiness_by_revents() {
    assert_eq!(interpret_poll(0, false, 0), PollOutcome::NotReady);
    assert_eq!(interpret_poll(1, false, POLLIN), PollOutcome::Ready);
    assert_eq!(interpret_poll(1, false, POLLHUP), PollOutcome::Ready);
    assert_eq!(interpret_poll(1, false, POLLIN | POLLHUP), PollOutcome::Ready);
    assert_eq!(interpret_poll(1, false, 0), PollOutcome::NotReady);
    // An error bit alone is not readiness.
    assert_eq!(interpret_poll(1, false, 0x008), PollOutcome::NotReady);
}

#[test]
fn read_framing() {
    let event = RawInputEvent {
        timestamp: Timestamp { sec: 1, usec: 2 },
        kind: 0x01,
        code: 28,
        value: 1,
    };
    let bytes = event.to_wire_bytes();
    assert_eq!(interpret_read(&bytes), ReadOutcome::Event(event));
    assert_eq!(interpret_read(&[]), ReadOutcome::NoEvent);
    assert_eq!(interpret_read(&bytes[0..5]), ReadOutcome::FramingViolation);
    assert_eq!(interpret_read(&[0u8; 25]), ReadOutcome::FramingViolation);
}

#[test]
fn upload_preparation_forces_fresh_id() {
    let mut raw = evinput::RawForceFeedbackEffect {
        kind: evinput::FF_RUMBLE,
        id: 9,
        direction: 1,
        trigger: evinput::RawForceFeedbackTrigger { button: 0, interval: 0 },
        replay: evinput::RawForceFeedbackReplay { length: 10, delay: 0 },
        body: [0u8; 32],
    };
    raw.body[0] = 0xff;
    let prepared = prepare_upload(&raw);
    assert_eq!(prepared.id, -1);
    assert_eq!(prepared.kind, raw.kind);
    assert_eq!(prepared.replay, raw.replay);
    assert_eq!(prepared.body, raw.body);
}

#[test]
fn effect_control_events() {
    let id = ForceFeedbackEffectId::from_kernel(2).unwrap();
    assert_eq!(
        enable_effect_body(id, 4),
        InputEventBody::Other { kind: EventKind::ForceFeedback, code: 2, value: 4 }
    );
    assert_eq!(
        disable_effect_body(id),
        InputEventBody::Other { kind: EventKind::ForceFeedback, code: 2, value: 0 }
    );
}

#[test]
fn ioctl_string_trimming() {
    let buffer = [104u8, 105, 0, 0];
    assert_eq!(ioctl_string_bytes(&buffer, 3), Some(vec![104, 105]));
    assert_eq!(ioctl_string_bytes(&buffer, 1), Some(Vec::new()));
    assert_eq!(ioctl_string_bytes(&buffer, 0), None);
    assert_eq!(ioctl_string_bytes(&buffer, 5), None);
}

#[test]
fn event_node_names() {
    assert!(is_event_node_name(b"event3"));
    assert!(is_event_node_name(b"event"));
    assert!(!is_event_node_name(b"input7"));
    assert!(!is_event_node_name(b"ev"));
    assert!(!is_event_node_name(b""));
}
