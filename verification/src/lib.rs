//! Typed access to the Linux input-event subsystem, with the pure core
//! verified: the raw-event wire codec, the capability-bitmask decoder,
//! the force-feedback effect codec and its two-phase transaction guard
//! logic, the virtual-device setup planner, and the poll-result
//! classifier. The system calls themselves (ioctls, reads, writes,
//! waits) live outside this crate, in the thin runtime around it.

mod bits;
mod codes;
mod device;
mod event;
mod force_feedback;
mod uinput;

pub use crate::bits::EventBitsIter;
pub use crate::bits::MAX_BITMASK_BYTES;
pub use crate::bits::bit_at;
pub use crate::bits::decode_event_bits;
pub use crate::bits::lemma_bit_positions_ascending;
pub use crate::bits::lemma_trailing_zeros_no_bits;
pub use crate::bits::lemma_zero_buffer_no_bits;
pub use crate::bits::spec_bit_positions;
pub use crate::bits::spec_bit_positions_from;
pub use crate::codes::AbsoluteAxis;
pub use crate::codes::Bus;
pub use crate::codes::EventCode;
pub use crate::codes::EventKind;
pub use crate::codes::ForceFeedback;
pub use crate::codes::FromCode;
pub use crate::codes::Key;
pub use crate::codes::RelativeAxis;
pub use crate::device::AbsoluteAxisBit;
pub use crate::device::DeviceId;
pub use crate::device::EventBit;
pub use crate::device::POLLHUP;
pub use crate::device::POLLIN;
pub use crate::device::PollOutcome;
pub use crate::device::RawAbsInfo;
pub use crate::device::RawDeviceId;
pub use crate::device::ReadOutcome;
pub use crate::device::disable_effect_body;
pub use crate::device::enable_effect_body;
pub use crate::device::interpret_poll;
pub use crate::device::interpret_read;
pub use crate::device::ioctl_string_bytes;
pub use crate::device::is_event_node_name;
pub use crate::device::prepare_upload;
pub use crate::device::spec_is_event_node_name;
pub use crate::event::InputEvent;
pub use crate::event::InputEventBody;
pub use crate::event::RawInputEvent;
pub use crate::event::Timestamp;
pub use crate::event::RAW_INPUT_EVENT_SIZE;
pub use crate::event::body_wf;
pub use crate::event::encode_body;
pub use crate::event::lemma_decode_body_wf;
pub use crate::event::lemma_decode_encode;
pub use crate::event::lemma_encode_decode;
pub use crate::event::lemma_wire_bytes_round_trip;
pub use crate::event::spec_decode_body;
pub use crate::event::spec_encode_body;
pub use crate::uinput::DeviceCreateError;
pub use crate::uinput::DeviceSetupPlan;
pub use crate::uinput::DEVICE_NAME_SIZE;
pub use crate::uinput::EV_UINPUT;
pub use crate::uinput::FinalizeOnce;
pub use crate::uinput::ForceFeedbackEventClass;
pub use crate::uinput::RawAbsSetup;
pub use crate::uinput::RawDeviceSetup;
pub use crate::uinput::RawForceFeedbackErase;
pub use crate::uinput::RawForceFeedbackUpload;
pub use crate::uinput::SetupCall;
pub use crate::uinput::UI_FF_ERASE;
pub use crate::uinput::UI_FF_UPLOAD;
pub use crate::uinput::classify_force_feedback_event;
pub use crate::uinput::lemma_finalize_exactly_once;
pub use crate::uinput::spec_abs_setup;
pub use crate::uinput::spec_calls_for_bit;
pub use crate::uinput::spec_has_force_feedback_bit;
pub use crate::uinput::spec_has_key_bit;
pub use crate::uinput::spec_has_relative_axis_bit;
pub use crate::uinput::spec_has_absolute_axis_bit;
pub use crate::uinput::spec_kind_calls;
pub use crate::uinput::spec_name_field;
pub use crate::uinput::spec_setup_calls;
pub use crate::force_feedback::FF_EFFECT_BODY_SIZE;
pub use crate::force_feedback::FF_AUTOCENTER;
pub use crate::force_feedback::FF_CONSTANT;
pub use crate::force_feedback::FF_DAMPER;
pub use crate::force_feedback::FF_FRICTION;
pub use crate::force_feedback::FF_GAIN;
pub use crate::force_feedback::FF_INERTIA;
pub use crate::force_feedback::FF_PERIODIC;
pub use crate::force_feedback::FF_RAMP;
pub use crate::force_feedback::FF_SPRING;
pub use crate::force_feedback::FF_RUMBLE;
pub use crate::force_feedback::ForceFeedbackDuration;
pub use crate::force_feedback::ForceFeedbackEffect;
pub use crate::force_feedback::ForceFeedbackEffectId;
pub use crate::force_feedback::ForceFeedbackEffectKind;
pub use crate::force_feedback::RawForceFeedbackConditionEffect;
pub use crate::force_feedback::RawForceFeedbackConstantEffect;
pub use crate::force_feedback::RawForceFeedbackEnvelope;
pub use crate::force_feedback::RawForceFeedbackEffect;
pub use crate::force_feedback::RawForceFeedbackPeriodicEffect;
pub use crate::force_feedback::RawForceFeedbackRampEffect;
pub use crate::force_feedback::RawForceFeedbackReplay;
pub use crate::force_feedback::RawForceFeedbackRumbleEffect;
pub use crate::force_feedback::RawForceFeedbackTrigger;
pub use crate::force_feedback::UnsupportedEffectKind;
pub use crate::force_feedback::convert_and_clip;
pub use crate::force_feedback::lemma_duration_clamp;
pub use crate::force_feedback::lemma_duration_round_trip;
pub use crate::force_feedback::spec_clip_millis;
pub use crate::force_feedback::spec_u16_le;
pub use crate::force_feedback::spec_decode_duration;
pub use crate::force_feedback::spec_encode_duration;
