//! The raw-event codec on concrete records: decode rules, encode
//! rules, the wire byte image, and the round trips between them.

use evinput::EventKind;
use evinput::InputEvent;
use evinput::InputEventBody;
use evinput::Key;
use evinput::RawInputEvent;
use evinput::RelativeAxis;
use evinput::AbsoluteAxis;
use evinput::Timestamp;
use evinput::RAW_INPUT_EVENT_SIZE;

fn raw(kind: u16, code: u16, value: i32) -> RawInputEvent {
    RawInputEvent { timestamp: Timestamp { sec: 7, usec: 125 }, kind, code, value }
}

#[test]
fn decode_key_press_and_release() {
    assert_eq!(InputEvent::from_raw(&raw(0x01, 30, 1)).body, InputEventBody::KeyPress(Key::A));
    assert_eq!(InputEvent::from_raw(&raw(0x01, 30, 0)).body, InputEventBody::KeyRelease(Key::A));
}

#[test]
fn decode_key_autorepeat_falls_through() {
    // Value 2, the kernel's autorepeat indicator, has no named variant.
    assert_eq!(
        InputEvent::from_raw(&raw(0x01, 30, 2)).body,
        InputEventBody::Other { kind: EventKind::Key, code: 30, value: 2 }
    );
}

#[test]
fn decode_axis_moves() {
    assert_eq!(
        InputEvent::from_raw(&raw(0x02, 0, -3)).body,
        InputEventBody::RelativeMove { axis: RelativeAxis::X, delta: -3 }
    );
    assert_eq!(
        InputEvent::from_raw(&raw(0x03, 1, 512)).body,
        InputEventBody::AbsoluteMove { axis: AbsoluteAxis::Y, position: 512 }
    );
}

#[test]
fn decode_markers() {
    assert_eq!(InputEvent::from_raw(&raw(0x00, 0, 0)).body, InputEventBody::Flush);
    assert_eq!(InputEvent::from_raw(&raw(0x00, 3, 0)).body, InputEventBody::Dropped);
    assert_eq!(
        InputEvent::from_raw(&raw(0x00, 1, 0)).body,
        InputEventBody::Other { kind: EventKind::Synchronization, code: 1, value: 0 }
    );
}

#[test]
fn decode_keeps_timestamp() {
    let event = InputEvent::from_raw(&raw(0x01, 30, 1));
    assert_eq!(event.timestamp, Timestamp { sec: 7, usec: 125 });
}

#[test]
fn encode_decode_round_trip() {
    let bodies = vec![
        InputEventBody::KeyPress(Key::Space),
        InputEventBody::KeyRelease(Key::Other(86)),
        InputEventBody::RelativeMove { axis: RelativeAxis::Wheel, delta: 1 },
        InputEventBody::AbsoluteMove { axis: AbsoluteAxis::Hat0X, position: -1 },
        InputEventBody::Flush,
        InputEventBody::Dropped,
        InputEventBody::Other { kind: EventKind::Misc, code: 4, value: 9 },
    ];
    for body in bodies {
        let event = InputEvent { timestamp: Timestamp { sec: 0, usec: 0 }, body: body.clone() };
        let round = InputEvent::from_raw(&event.to_raw());
        assert_eq!(round.body, body);
    }
}

#[test]
fn decode_encode_round_trip() {
    let triples = vec![
        (0x01u16, 30u16, 1i32),
        (0x01, 30, 0),
        (0x02, 8, -40),
        (0x03, 16, 255),
        (0x00, 0, 0),
        (0x00, 3, 0),
    ];
    for (kind, code, value) in triples {
        let back = InputEvent::from_raw(&raw(kind, code, value)).to_raw();
        assert_eq!((back.kind, back.code, back.value), (kind, code, value));
    }
}

#[test]
fn emit_resets_timestamp() {
    let body = InputEventBody::KeyPress(Key::Enter);
    let record = body.to_raw_for_emit();
    assert_eq!(record.timestamp, Timestamp { sec: 0, usec: 0 });
    assert_eq!((record.kind, record.code, record.value), (0x01, 28, 1));
}

#[test]
fn wire_bytes_exact_image() {
    let event = RawInputEvent {
        timestamp: Timestamp { sec: 1, usec: 2 },
        kind: 0x01,
        code: 0x0203,
        value: 0x04050607,
    };
    let bytes = event.to_wire_bytes();
    let mut expected = vec![1u8, 0, 0, 0, 0, 0, 0, 0];
    expected.extend_from_slice(&[2, 0, 0, 0, 0, 0, 0, 0]);
    expected.extend_from_slice(&[1, 0]);
    expected.extend_from_slice(&[3, 2]);
    expected.extend_from_slice(&[7, 6, 5, 4]);
    assert_eq!(bytes, expected);
}

#[test]
fn wire_bytes_round_trip() {
    let event = RawInputEvent {
        timestamp: Timestamp { sec: -5, usec: 999_999 },
        kind: 0x15,
        code: 0x60,
        value: -123_456,
    };
    let bytes = event.to_wire_bytes();
    assert_eq!(bytes.len(), RAW_INPUT_EVENT_SIZE);
    assert_eq!(RawInputEvent::from_wire_bytes(&bytes), Some(event));
}

#[test]
fn wire_bytes_wrong_length_rejected() {
    assert_eq!(RawInputEvent::from_wire_bytes(&[0u8; 23]), None);
    assert_eq!(RawInputEvent::from_wire_bytes(&[]), None);
}

#[test]
fn timestamp_subtraction() {
    let later = Timestamp { sec: 3, usec: 250 };
    let earlier = Timestamp { sec: 1, usec: 750 };
    assert_eq!(later.micros_since(&earlier), Some(1_999_500));
    assert_eq!(later.micros_since(&later), Some(0));
    assert_eq!(earlier.micros_since(&later), None);
}
