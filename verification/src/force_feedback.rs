//! Force-feedback effects: the kernel's fixed-layout effect record,
//! the semantic effect model, and the lossy-only-where-documented
//! mapping between the two (duration clamping, one modeled effect
//! family, a typed error for the rest).

use vstd::prelude::*;

verus! {

pub const FF_RUMBLE: u16 = 0x50;
pub const FF_PERIODIC: u16 = 0x51;
pub const FF_CONSTANT: u16 = 0x52;
pub const FF_SPRING: u16 = 0x53;
pub const FF_FRICTION: u16 = 0x54;
pub const FF_DAMPER: u16 = 0x55;
pub const FF_INERTIA: u16 = 0x56;
pub const FF_RAMP: u16 = 0x57;
pub const FF_GAIN: u16 = 0x60;
pub const FF_AUTOCENTER: u16 = 0x61;

/// The size in bytes of the kernel's per-family effect payload: the
/// widest family, laid out C-compatibly, rounded to its alignment.
pub const FF_EFFECT_BODY_SIZE: usize = 32;

/// A button that triggers an effect, and the delay before retriggering.
#[derive(Copy, Clone, PartialEq, Eq, Structural, Debug)]
pub struct RawForceFeedbackTrigger {
    pub button: u16,
    pub interval: u16,
}

/// How long an effect plays and how long it waits before starting,
/// both in milliseconds; a zero length means "play until stopped".
#[derive(Copy, Clone, PartialEq, Eq, Structural, Debug)]
pub struct RawForceFeedbackReplay {
    pub length: u16,
    pub delay: u16,
}

/// The attack/fade shape shared by several effect families.
#[derive(Copy, Clone, PartialEq, Eq, Structural, Debug)]
pub struct RawForceFeedbackEnvelope {
    pub attack_length: u16,
    pub attack_level: u16,
    pub fade_length: u16,
    pub fade_level: u16,
}

/// The constant-force family's payload.
#[derive(Copy, Clone, PartialEq, Eq, Structural, Debug)]
pub struct RawForceFeedbackConstantEffect {
    pub level: u16,
    pub envelope: RawForceFeedbackEnvelope,
}

/// The ramp family's payload.
#[derive(Copy, Clone, PartialEq, Eq, Structural, Debug)]
pub struct RawForceFeedbackRampEffect {
    pub start_level: i16,
    pub end_level: u16,
    pub envelope: RawForceFeedbackEnvelope,
}

/// The periodic family's payload. The kernel's record ends with a
/// pointer to an out-of-band custom waveform; only its length is
/// carried here, the waveform itself stays with the caller.
#[derive(Copy, Clone, PartialEq, Eq, Structural, Debug)]
pub struct RawForceFeedbackPeriodicEffect {
    pub waveform: u16,
    pub period: u16,
    pub magnitude: i16,
    pub offset: i16,
    pub phase: u16,
    pub envelope: RawForceFeedbackEnvelope,
    pub custom_length: u32,
}

/// One direction of a condition (spring/friction/damper/inertia)
/// family's payload.
#[derive(Copy, Clone, PartialEq, Eq, Structural, Debug)]
pub struct RawForceFeedbackConditionEffect {
    pub right_saturation: u16,
    pub left_saturation: u16,
    pub right_coefficient: i16,
    pub left_coefficient: i16,
    pub deadband: u16,
    pub center: i16,
}

/// The rumble family's payload: the two motor magnitudes.
#[derive(Copy, Clone, PartialEq, Eq, Structural, Debug)]
pub struct RawForceFeedbackRumbleEffect {
    pub strong_magnitude: u16,
    pub weak_magnitude: u16,
}

/// One effect exactly as it crosses the device handle: the family
/// code, the kernel-assigned id, and the family-dependent payload as
/// the raw bytes the kernel filled.
#[derive(Copy, Clone, Debug)]
pub struct RawForceFeedbackEffect {
    pub kind: u16,
    pub id: i16,
    pub direction: u16,
    pub trigger: RawForceFeedbackTrigger,
    pub replay: RawForceFeedbackReplay,
    pub body: [u8; 32],
}

/// The error for an effect-family code with no modeled decoding: the
/// payload's layout is unknown, so nothing of it may be read.
#[derive(Copy, Clone, PartialEq, Eq, Structural, Debug)]
pub struct UnsupportedEffectKind {
    pub kind: u16,
}

/// What an effect does, one variant per modeled family.
#[derive(Clone, PartialEq, Eq, Structural, Debug)]
pub enum ForceFeedbackEffectKind {
    Rumble { strong_magnitude: u16, weak_magnitude: u16 },
}

/// How long an effect plays: a finite span in whole milliseconds, or
/// until explicitly stopped.
#[derive(Clone, PartialEq, Eq, Structural, Debug)]
pub enum ForceFeedbackDuration {
    Finite(u64),
    Infinite,
}

/// A semantic force-feedback effect; `delay` counts milliseconds.
#[derive(Clone, PartialEq, Eq, Structural, Debug)]
pub struct ForceFeedbackEffect {
    pub id: i16,
    pub direction: u16,
    pub kind: ForceFeedbackEffectKind,
    pub duration: ForceFeedbackDuration,
    pub delay: u64,
    pub trigger: RawForceFeedbackTrigger,
}

/// An opaque handle the kernel assigns to an uploaded effect; never
/// constructed by the caller.
#[derive(Copy, Clone, PartialEq, Eq, Structural, Debug)]
pub struct ForceFeedbackEffectId(i16);

impl ForceFeedbackEffectId {
    /// The 16-bit handle value.
    pub closed spec fn spec_value(self) -> i16 {
        self.0
    }

    /// Accepts the id the kernel reported after an upload; the kernel
    /// assigns only nonnegative 16-bit handles, anything else is not a
    /// handle.
    pub fn from_kernel(raw: i32) -> (r: Option<ForceFeedbackEffectId>)
        ensures
            r is Some <==> 0 <= raw <= i16::MAX as i32,
            r matches Some(id) ==> id.spec_value() == raw as i16,
    {
        if 0 <= raw && raw <= 32767 {
            Some(ForceFeedbackEffectId(raw as i16))
        } else {
            None
        }
    }

    /// The handle as the 16-bit code field of an injected event.
    pub fn code(&self) -> (r: u16)
        ensures
            r == self.spec_value() as u16,
    {
        self.0 as u16
    }
}

/// The 16-bit value two little-endian payload bytes hold.
pub open spec fn spec_u16_le(lo: u8, hi: u8) -> u16 {
    (lo as u16) | (hi as u16) << 8
}

/// Clamps a millisecond count to the 15-bit range used by the kernel's
/// force-feedback replay fields.
pub open spec fn spec_clip_millis(millis: u64) -> u16 {
    if millis > 0x7fff {
        0x7fff as u16
    } else {
        millis as u16
    }
}

/// Clamps a millisecond count to the 15-bit range used by the kernel's
/// force-feedback replay fields.
pub fn convert_and_clip(millis: u64) -> (r: u16)
    ensures
        r == spec_clip_millis(millis),
{
    if millis > 0x7fff {
        0x7fff
    } else {
        millis as u16
    }
}

/// The wire value of a playback duration: finite spans are clamped,
/// "until stopped" is the zero length.
pub open spec fn spec_encode_duration(duration: ForceFeedbackDuration) -> u16 {
    match duration {
        ForceFeedbackDuration::Finite(millis) => spec_clip_millis(millis),
        ForceFeedbackDuration::Infinite => 0,
    }
}

/// The playback duration a wire length decodes to: zero means "until
/// stopped".
pub open spec fn spec_decode_duration(length: u16) -> ForceFeedbackDuration {
    if length == 0 {
        ForceFeedbackDuration::Infinite
    } else {
        ForceFeedbackDuration::Finite(length as u64)
    }
}

impl ForceFeedbackEffectKind {
    /// The family code a modeled effect encodes under.
    pub open spec fn spec_kind_code(self) -> u16 {
        match self {
            ForceFeedbackEffectKind::Rumble { .. } => FF_RUMBLE,
        }
    }

    /// The decoded meaning of a kernel-filled payload under the given
    /// family code: only the rumble family is modeled, and only its
    /// first four bytes carry the two magnitudes.
    pub open spec fn spec_from_raw(kind: u16, body: Seq<u8>) -> Option<ForceFeedbackEffectKind> {
        if kind == FF_RUMBLE {
            Some(
                ForceFeedbackEffectKind::Rumble {
                    strong_magnitude: spec_u16_le(body[0], body[1]),
                    weak_magnitude: spec_u16_le(body[2], body[3]),
                },
            )
        } else {
            None
        }
    }

    /// Decodes a payload by its family code, reading only the bytes
    /// the modeled family defines; an unmodeled code is refused whole.
    pub fn from_raw(kind: u16, body: &[u8; 32]) -> (r: Result<
        ForceFeedbackEffectKind,
        UnsupportedEffectKind,
    >)
        ensures
            match r {
                Ok(k) => Self::spec_from_raw(kind, body@) == Some(k),
                Err(e) => {
                    &&& Self::spec_from_raw(kind, body@) is None
                    &&& e.kind == kind
                },
            },
    {
        if kind == FF_RUMBLE {
            let strong = (body[0] as u16) | ((body[1] as u16) << 8u16);
            let weak = (body[2] as u16) | ((body[3] as u16) << 8u16);
            Ok(ForceFeedbackEffectKind::Rumble { strong_magnitude: strong, weak_magnitude: weak })
        } else {
            Err(UnsupportedEffectKind { kind })
        }
    }

    /// Serializes a modeled effect into a fresh payload: the family's
    /// bytes at the front, zeroes behind them. Decoding the payload
    /// under this effect's own family code gives the effect back.
    pub fn to_raw_body(&self) -> (r: [u8; 32])
        ensures
            Self::spec_from_raw(self.spec_kind_code(), r@) == Some(*self),
            forall|i: int| 4 <= i < 32 ==> r@[i] == 0,
    {
        let mut body = [0u8; 32];
        match self {
            ForceFeedbackEffectKind::Rumble { strong_magnitude, weak_magnitude } => {
                let strong: u16 = *strong_magnitude;
                let weak: u16 = *weak_magnitude;
                body[0] = (strong & 0xff) as u8;
                body[1] = ((strong >> 8u16) & 0xff) as u8;
                body[2] = (weak & 0xff) as u8;
                body[3] = ((weak >> 8u16) & 0xff) as u8;
                proof {
                    assert(((strong & 0xff) as u8 as u16) | (((strong >> 8u16) & 0xff) as u8
                        as u16) << 8 == strong) by (bit_vector);
                    assert(((weak & 0xff) as u8 as u16) | (((weak >> 8u16) & 0xff) as u8 as u16)
                        << 8 == weak) by (bit_vector);
                }
            },
        }
        body
    }
}

impl ForceFeedbackEffect {
    /// Decodes a wire effect: the duration and delay come from the
    /// replay fields, the payload from the family code; an effect of
    /// an unmodeled family is refused whole.
    pub fn from_raw(raw: &RawForceFeedbackEffect) -> (r: Result<
        ForceFeedbackEffect,
        UnsupportedEffectKind,
    >)
        ensures
            match r {
                Ok(e) => {
                    &&& ForceFeedbackEffectKind::spec_from_raw(raw.kind, raw.body@) == Some(e.kind)
                    &&& e.id == raw.id
                    &&& e.direction == raw.direction
                    &&& e.trigger == raw.trigger
                    &&& e.duration == spec_decode_duration(raw.replay.length)
                    &&& e.delay == raw.replay.delay as u64
                },
                Err(err) => {
                    &&& ForceFeedbackEffectKind::spec_from_raw(raw.kind, raw.body@) is None
                    &&& err.kind == raw.kind
                },
            },
    {
        let kind = match ForceFeedbackEffectKind::from_raw(raw.kind, &raw.body) {
            Ok(kind) => kind,
            Err(err) => {
                return Err(err);
            },
        };

        let duration = if raw.replay.length == 0 {
            ForceFeedbackDuration::Infinite
        } else {
            ForceFeedbackDuration::Finite(raw.replay.length as u64)
        };

        Ok(
            ForceFeedbackEffect {
                id: raw.id,
                direction: raw.direction,
                kind,
                duration,
                delay: raw.replay.delay as u64,
                trigger: raw.trigger,
            },
        )
    }

    /// Encodes an effect for upload: the duration and delay are
    /// clamped into the replay fields, the payload is rebuilt from the
    /// modeled family.
    pub fn to_raw(&self) -> (r: RawForceFeedbackEffect)
        ensures
            r.id == self.id,
            r.direction == self.direction,
            r.trigger == self.trigger,
            r.kind == self.kind.spec_kind_code(),
            r.replay.length == spec_encode_duration(self.duration),
            r.replay.delay == spec_clip_millis(self.delay),
            ForceFeedbackEffectKind::spec_from_raw(r.kind, r.body@) == Some(self.kind),
    {
        let length = match &self.duration {
            ForceFeedbackDuration::Finite(millis) => convert_and_clip(*millis),
            ForceFeedbackDuration::Infinite => 0,
        };

        let kind_code = match &self.kind {
            ForceFeedbackEffectKind::Rumble { .. } => FF_RUMBLE,
        };

        RawForceFeedbackEffect {
            kind: kind_code,
            id: self.id,
            direction: self.direction,
            trigger: self.trigger,
            replay: RawForceFeedbackReplay { length, delay: convert_and_clip(self.delay) },
            body: self.kind.to_raw_body(),
        }
    }
}

/// The duration clamp, stated whole: an over-range finite span encodes
/// to exactly the 15-bit maximum, an in-range one to its own count;
/// "until stopped" encodes to zero and zero decodes back to it.
pub proof fn lemma_duration_clamp(millis: u64)
    ensures
        millis > 0x7fff ==> spec_encode_duration(ForceFeedbackDuration::Finite(millis)) == 0x7fff,
        millis <= 0x7fff ==> spec_encode_duration(ForceFeedbackDuration::Finite(millis)) == millis,
        spec_encode_duration(ForceFeedbackDuration::Infinite) == 0,
        spec_decode_duration(0) == ForceFeedbackDuration::Infinite,
{
}

/// Every wire length inside the 15-bit range survives decoding and
/// re-encoding unchanged; zero round-trips through "until stopped".
pub proof fn lemma_duration_round_trip(length: u16)
    requires
        length <= 0x7fff,
    ensures
        spec_encode_duration(spec_decode_duration(length)) == length,
{
}

} // verus!
