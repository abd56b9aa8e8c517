//! The force-feedback effect codec on concrete values: the duration
//! clamp, the payload parse, and the typed refusal of unmodeled
//! families.

use evinput::convert_and_clip;
use evinput::ForceFeedbackDuration;
use evinput::ForceFeedbackEffect;
use evinput::ForceFeedbackEffectId;
use evinput::ForceFeedbackEffectKind;
use evinput::RawForceFeedbackEffect;
use evinput::RawForceFeedbackReplay;
use evinput::RawForceFeedbackTrigger;
use evinput::UnsupportedEffectKind;
use evinput::FF_RUMBLE;
use evinput::FF_PERIODIC;

fn raw_rumble(length: u16, delay: u16) -> RawForceFeedbackEffect {
    let mut body = [0u8; 32];
    body[0] = 0x34;
    body[1] = 0x12;
    body[2] = 0x78;
    body[3] = 0x56;
    RawForceFeedbackEffect {
        kind: FF_RUMBLE,
        id: 3,
        direction: 0x4000,
        trigger: RawForceFeedbackTrigger { button: 1, interval: 2 },
        replay: RawForceFeedbackReplay { length, delay },
        body,
    }
}

#[test]
fn clip_is_identity_in_range() {
    assert_eq!(convert_and_clip(0), 0);
    assert_eq!(convert_and_clip(1), 1);
    assert_eq!(convert_and_clip(32767), 32767);
}

#[test]
fn clip_clamps_over_range() {
    assert_eq!(convert_and_clip(32768), 32767);
    assert_eq!(convert_and_clip(1_000_000), 32767);
    assert_eq!(convert_and_clip(u64::MAX), 32767);
}

#[test]
fn rumble_payload_decodes() {
    let effect = ForceFeedbackEffect::from_raw(&raw_rumble(100, 5)).unwrap();
    assert_eq!(
        effect.kind,
        ForceFeedbackEffectKind::Rumble { strong_magnitude: 0x1234, weak_magnitude: 0x5678 }
    );
    assert_eq!(effect.id, 3);
    assert_eq!(effect.direction, 0x4000);
    assert_eq!(effect.trigger, RawForceFeedbackTrigger { button: 1, interval: 2 });
    assert_eq!(effect.duration, ForceFeedbackDuration::Finite(100));
    assert_eq!(effect.delay, 5);
}

#[test]
fn unmodeled_family_is_refused() {
    let mut raw = raw_rumble(0, 0);
    raw.kind = FF_PERIODIC;
    assert_eq!(
        ForceFeedbackEffect::from_raw(&raw),
        Err(UnsupportedEffectKind { kind: FF_PERIODIC })
    );
}

#[test]
fn zero_length_decodes_to_infinite() {
    let effect = ForceFeedbackEffect::from_raw(&raw_rumble(0, 0)).unwrap();
    assert_eq!(effect.duration, ForceFeedbackDuration::Infinite);
}

#[test]
fn infinite_encodes_to_zero_length() {
    let mut effect = ForceFeedbackEffect::from_raw(&raw_rumble(100, 5)).unwrap();
    effect.duration = ForceFeedbackDuration::Infinite;
    let raw = effect.to_raw();
    assert_eq!(raw.replay.length, 0);
}

#[test]
fn over_range_duration_encodes_clamped() {
    let mut effect = ForceFeedbackEffect::from_raw(&raw_rumble(1, 0)).unwrap();
    effect.duration = ForceFeedbackDuration::Finite(32768);
    effect.delay = 40_000;
    let raw = effect.to_raw();
    assert_eq!(raw.replay.length, 32767);
    assert_eq!(raw.replay.delay, 32767);
}

#[test]
fn effect_round_trip() {
    let original = raw_rumble(250, 16);
    let decoded = ForceFeedbackEffect::from_raw(&original).unwrap();
    let encoded = decoded.to_raw();
    assert_eq!(encoded.kind, FF_RUMBLE);
    assert_eq!(encoded.id, original.id);
    assert_eq!(encoded.direction, original.direction);
    assert_eq!(encoded.trigger, original.trigger);
    assert_eq!(encoded.replay, original.replay);
    assert_eq!(&encoded.body[0..4], &original.body[0..4]);
}

#[test]
fn effect_id_accepts_only_kernel_handles() {
    assert!(ForceFeedbackEffectId::from_kernel(-1).is_none());
    assert!(ForceFeedbackEffectId::from_kernel(32768).is_none());
    let id = ForceFeedbackEffectId::from_kernel(7).unwrap();
    assert_eq!(id.code(), 7);
    let top = ForceFeedbackEffectId::from_kernel(32767).unwrap();
    assert_eq!(top.code(), 32767);
}
