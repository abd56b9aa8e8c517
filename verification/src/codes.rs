//! The numeric code tables of the input-event protocol: event kinds and the
//! per-kind code enumerations, each a set of named values plus a fallback for
//! unrecognized codes, with total bidirectional conversion to the wire code.

use vstd::prelude::*;

verus! {

/// A semantic value standing for a 16-bit wire code.
pub trait FromCode: Sized {
    /// The value a wire code decodes to.
    spec fn spec_from_code(code: u16) -> Self;

    /// Decodes a wire code.
    fn from_code(code: u16) -> (r: Self)
        ensures
            r == Self::spec_from_code(code),
    ;
}

/// A code family tied to one event kind: the capability query and the
/// per-kind event payloads use these codes.
pub trait EventCode: FromCode {
    /// The event kind whose payloads carry this code family.
    spec fn spec_event_kind() -> EventKind;

    /// The event kind whose payloads carry this code family.
    fn event_kind() -> (k: EventKind)
        ensures
            k == Self::spec_event_kind(),
    ;
}

impl FromCode for u16 {
    open spec fn spec_from_code(code: u16) -> u16 {
        code
    }

    fn from_code(code: u16) -> (r: u16) {
        code
    }
}


/// The kind of an input event record.
#[derive(Copy, Clone, PartialEq, Eq, Structural, Debug, Hash)]
pub enum EventKind {
    Synchronization,
    Key,
    RelativeAxis,
    AbsoluteAxis,
    Misc,
    Switch,
    LED,
    Sound,
    AutoRepeat,
    ForceFeedback,
    Power,
    ForceFeedbackStatus,
    Other(u16),
}

impl EventKind {
    /// The numeric code this value stands for on the wire.
    pub open spec fn spec_code(self) -> u16 {
        match self {
            EventKind::Synchronization => 0,
            EventKind::Key => 1,
            EventKind::RelativeAxis => 2,
            EventKind::AbsoluteAxis => 3,
            EventKind::Misc => 4,
            EventKind::Switch => 5,
            EventKind::LED => 0x11,
            EventKind::Sound => 0x12,
            EventKind::AutoRepeat => 0x14,
            EventKind::ForceFeedback => 0x15,
            EventKind::Power => 0x16,
            EventKind::ForceFeedbackStatus => 0x17,
            EventKind::Other(code) => code,
        }
    }

    /// A value is canonical when decoding its own code gives it back:
    /// an `Other` payload never shadows a named code.
    pub open spec fn wf(self) -> bool {
        <EventKind as FromCode>::spec_from_code(self.spec_code()) == self
    }

    /// The numeric code this value stands for on the wire.
    pub fn raw(&self) -> (r: u16)
        ensures
            r == self.spec_code(),
    {
        match *self {
            EventKind::Synchronization => 0,
            EventKind::Key => 1,
            EventKind::RelativeAxis => 2,
            EventKind::AbsoluteAxis => 3,
            EventKind::Misc => 4,
            EventKind::Switch => 5,
            EventKind::LED => 0x11,
            EventKind::Sound => 0x12,
            EventKind::AutoRepeat => 0x14,
            EventKind::ForceFeedback => 0x15,
            EventKind::Power => 0x16,
            EventKind::ForceFeedbackStatus => 0x17,
            EventKind::Other(code) => code,
        }
    }
}

impl FromCode for EventKind {
    open spec fn spec_from_code(code: u16) -> EventKind {
        match code {
            0 => EventKind::Synchronization,
            1 => EventKind::Key,
            2 => EventKind::RelativeAxis,
            3 => EventKind::AbsoluteAxis,
            4 => EventKind::Misc,
            5 => EventKind::Switch,
            0x11 => EventKind::LED,
            0x12 => EventKind::Sound,
            0x14 => EventKind::AutoRepeat,
            0x15 => EventKind::ForceFeedback,
            0x16 => EventKind::Power,
            0x17 => EventKind::ForceFeedbackStatus,
            _ => EventKind::Other(code),
        }
    }

    fn from_code(code: u16) -> (r: EventKind) {
        match code {
            0 => EventKind::Synchronization,
            1 => EventKind::Key,
            2 => EventKind::RelativeAxis,
            3 => EventKind::AbsoluteAxis,
            4 => EventKind::Misc,
            5 => EventKind::Switch,
            0x11 => EventKind::LED,
            0x12 => EventKind::Sound,
            0x14 => EventKind::AutoRepeat,
            0x15 => EventKind::ForceFeedback,
            0x16 => EventKind::Power,
            0x17 => EventKind::ForceFeedbackStatus,
            _ => EventKind::Other(code),
        }
    }
}

/// Decoding a code and re-encoding it gives the code back, for every code.
pub proof fn lemma_eventkind_code_round_trip(code: u16)
    ensures
        <EventKind as FromCode>::spec_from_code(code).spec_code() == code,
        <EventKind as FromCode>::spec_from_code(code).wf(),
{
}

/// A key or button code.
#[derive(Copy, Clone, PartialEq, Eq, Structural, Debug, Hash)]
pub enum Key {
    Escape,
    Digit1,
    Digit2,
    Digit3,
    Digit4,
    Digit5,
    Digit6,
    Digit7,
    Digit8,
    Digit9,
    Digit0,
    Minus,
    Equal,
    Backspace,
    Tab,
    Q,
    W,
    E,
    R,
    T,
    Y,
    U,
    I,
    O,
    P,
    LeftBrace,
    RightBrace,
    Enter,
    LeftCtrl,
    A,
    S,
    D,
    F,
    G,
    H,
    J,
    K,
    L,
    Semicolon,
    Apostrophe,
    Grave,
    LeftShift,
    Backslash,
    Z,
    X,
    C,
    V,
    B,
    N,
    M,
    Comma,
    Dot,
    Slash,
    RightShift,
    KeypadAsterisk,
    LeftAlt,
    Space,
    CapsLock,
    F1,
    F2,
    F3,
    F4,
    F5,
    F6,
    F7,
    F8,
    F9,
    F10,
    NumLock,
    ScrollLock,
    Keypad7,
    Keypad8,
    Keypad9,
    KeypadMinus,
    Keypad4,
    Keypad5,
    Keypad6,
    KeypadPlus,
    Keypad1,
    Keypad2,
    Keypad3,
    Keypad0,
    KeypadDot,
    F11,
    F12,
    KeypadEnter,
    RightCtrl,
    KeypadSlash,
    SysRq,
    RightAlt,
    Home,
    Up,
    PageUp,
    Left,
    Right,
    End,
    Down,
    PageDown,
    Insert,
    Delete,
    KeypadEqual,
    KeypadPlusMinus,
    Pause,
    KeypadComma,
    LeftMeta,
    RightMeta,
    MouseLeft,
    MouseRight,
    MouseMiddle,
    MouseExtra1,
    MouseExtra2,
    MouseExtra3,
    MouseExtra4,
    MouseExtra5,
    PadSouth,
    PadEast,
    PadNorth,
    PadWest,
    ShoulderLeft,
    ShoulderRight,
    ShoulderLeftLower,
    ShoulderRightLower,
    Select,
    Start,
    HomeButton,
    StickLeft,
    StickRight,
    PadUp,
    PadDown,
    PadLeft,
    PadRight,
    ButtonMisc,
    TriggerHappy,
    Other(u16),
}

impl Key {
    /// The numeric code this value stands for on the wire.
    pub open spec fn spec_code(self) -> u16 {
        match self {
            Key::Escape => 1,
            Key::Digit1 => 2,
            Key::Digit2 => 3,
            Key::Digit3 => 4,
            Key::Digit4 => 5,
            Key::Digit5 => 6,
            Key::Digit6 => 7,
            Key::Digit7 => 8,
            Key::Digit8 => 9,
            Key::Digit9 => 0x0a,
            Key::Digit0 => 0x0b,
            Key::Minus => 0x0c,
            Key::Equal => 0x0d,
            Key::Backspace => 0x0e,
            Key::Tab => 0x0f,
            Key::Q => 0x10,
            Key::W => 0x11,
            Key::E => 0x12,
            Key::R => 0x13,
            Key::T => 0x14,
            Key::Y => 0x15,
            Key::U => 0x16,
            Key::I => 0x17,
            Key::O => 0x18,
            Key::P => 0x19,
            Key::LeftBrace => 0x1a,
            Key::RightBrace => 0x1b,
            Key::Enter => 0x1c,
            Key::LeftCtrl => 0x1d,
            Key::A => 0x1e,
            Key::S => 0x1f,
            Key::D => 0x20,
            Key::F => 0x21,
            Key::G => 0x22,
            Key::H => 0x23,
            Key::J => 0x24,
            Key::K => 0x25,
            Key::L => 0x26,
            Key::Semicolon => 0x27,
            Key::Apostrophe => 0x28,
            Key::Grave => 0x29,
            Key::LeftShift => 0x2a,
            Key::Backslash => 0x2b,
            Key::Z => 0x2c,
            Key::X => 0x2d,
            Key::C => 0x2e,
            Key::V => 0x2f,
            Key::B => 0x30,
            Key::N => 0x31,
            Key::M => 0x32,
            Key::Comma => 0x33,
            Key::Dot => 0x34,
            Key::Slash => 0x35,
            Key::RightShift => 0x36,
            Key::KeypadAsterisk => 0x37,
            Key::LeftAlt => 0x38,
            Key::Space => 0x39,
            Key::CapsLock => 0x3a,
            Key::F1 => 0x3b,
            Key::F2 => 0x3c,
            Key::F3 => 0x3d,
            Key::F4 => 0x3e,
            Key::F5 => 0x3f,
            Key::F6 => 0x40,
            Key::F7 => 0x41,
            Key::F8 => 0x42,
            Key::F9 => 0x43,
            Key::F10 => 0x44,
            Key::NumLock => 0x45,
            Key::ScrollLock => 0x46,
            Key::Keypad7 => 0x47,
            Key::Keypad8 => 0x48,
            Key::Keypad9 => 0x49,
            Key::KeypadMinus => 0x4a,
            Key::Keypad4 => 0x4b,
            Key::Keypad5 => 0x4c,
            Key::Keypad6 => 0x4d,
            Key::KeypadPlus => 0x4e,
            Key::Keypad1 => 0x4f,
            Key::Keypad2 => 0x50,
            Key::Keypad3 => 0x51,
            Key::Keypad0 => 0x52,
            Key::KeypadDot => 0x53,
            Key::F11 => 0x57,
            Key::F12 => 0x58,
            Key::KeypadEnter => 0x60,
            Key::RightCtrl => 0x61,
            Key::KeypadSlash => 0x62,
            Key::SysRq => 0x63,
            Key::RightAlt => 0x64,
            Key::Home => 0x66,
            Key::Up => 0x67,
            Key::PageUp => 0x68,
            Key::Left => 0x69,
            Key::Right => 0x6a,
            Key::End => 0x6b,
            Key::Down => 0x6c,
            Key::PageDown => 0x6d,
            Key::Insert => 0x6e,
            Key::Delete => 0x6f,
            Key::KeypadEqual => 0x75,
            Key::KeypadPlusMinus => 0x76,
            Key::Pause => 0x77,
            Key::KeypadComma => 0x79,
            Key::LeftMeta => 0x7d,
            Key::RightMeta => 0x7e,
            Key::MouseLeft => 0x110,
            Key::MouseRight => 0x111,
            Key::MouseMiddle => 0x112,
            Key::MouseExtra1 => 0x113,
            Key::MouseExtra2 => 0x114,
            Key::MouseExtra3 => 0x115,
            Key::MouseExtra4 => 0x116,
            Key::MouseExtra5 => 0x117,
            Key::PadSouth => 0x130,
            Key::PadEast => 0x131,
            Key::PadNorth => 0x133,
            Key::PadWest => 0x134,
            Key::ShoulderLeft => 0x136,
            Key::ShoulderRight => 0x137,
            Key::ShoulderLeftLower => 0x138,
            Key::ShoulderRightLower => 0x139,
            Key::Select => 0x13a,
            Key::Start => 0x13b,
            Key::HomeButton => 0x13c,
            Key::StickLeft => 0x13d,
            Key::StickRight => 0x13e,
            Key::PadUp => 0x220,
            Key::PadDown => 0x221,
            Key::PadLeft => 0x222,
            Key::PadRight => 0x223,
            Key::ButtonMisc => 0x100,
            Key::TriggerHappy => 0x2c0,
            Key::Other(code) => code,
        }
    }

    /// A value is canonical when decoding its own code gives it back:
    /// an `Other` payload never shadows a named code.
    pub open spec fn wf(self) -> bool {
        <Key as FromCode>::spec_from_code(self.spec_code()) == self
    }

    /// The numeric code this value stands for on the wire.
    pub fn raw(&self) -> (r: u16)
        ensures
            r == self.spec_code(),
    {
        match *self {
            Key::Escape => 1,
            Key::Digit1 => 2,
            Key::Digit2 => 3,
            Key::Digit3 => 4,
            Key::Digit4 => 5,
            Key::Digit5 => 6,
            Key::Digit6 => 7,
            Key::Digit7 => 8,
            Key::Digit8 => 9,
            Key::Digit9 => 0x0a,
            Key::Digit0 => 0x0b,
            Key::Minus => 0x0c,
            Key::Equal => 0x0d,
            Key::Backspace => 0x0e,
            Key::Tab => 0x0f,
            Key::Q => 0x10,
            Key::W => 0x11,
            Key::E => 0x12,
            Key::R => 0x13,
            Key::T => 0x14,
            Key::Y => 0x15,
            Key::U => 0x16,
            Key::I => 0x17,
            Key::O => 0x18,
            Key::P => 0x19,
            Key::LeftBrace => 0x1a,
            Key::RightBrace => 0x1b,
            Key::Enter => 0x1c,
            Key::LeftCtrl => 0x1d,
            Key::A => 0x1e,
            Key::S => 0x1f,
            Key::D => 0x20,
            Key::F => 0x21,
            Key::G => 0x22,
            Key::H => 0x23,
            Key::J => 0x24,
            Key::K => 0x25,
            Key::L => 0x26,
            Key::Semicolon => 0x27,
            Key::Apostrophe => 0x28,
            Key::Grave => 0x29,
            Key::LeftShift => 0x2a,
            Key::Backslash => 0x2b,
            Key::Z => 0x2c,
            Key::X => 0x2d,
            Key::C => 0x2e,
            Key::V => 0x2f,
            Key::B => 0x30,
            Key::N => 0x31,
            Key::M => 0x32,
            Key::Comma => 0x33,
            Key::Dot => 0x34,
            Key::Slash => 0x35,
            Key::RightShift => 0x36,
            Key::KeypadAsterisk => 0x37,
            Key::LeftAlt => 0x38,
            Key::Space => 0x39,
            Key::CapsLock => 0x3a,
            Key::F1 => 0x3b,
            Key::F2 => 0x3c,
            Key::F3 => 0x3d,
            Key::F4 => 0x3e,
            Key::F5 => 0x3f,
            Key::F6 => 0x40,
            Key::F7 => 0x41,
            Key::F8 => 0x42,
            Key::F9 => 0x43,
            Key::F10 => 0x44,
            Key::NumLock => 0x45,
            Key::ScrollLock => 0x46,
            Key::Keypad7 => 0x47,
            Key::Keypad8 => 0x48,
            Key::Keypad9 => 0x49,
            Key::KeypadMinus => 0x4a,
            Key::Keypad4 => 0x4b,
            Key::Keypad5 => 0x4c,
            Key::Keypad6 => 0x4d,
            Key::KeypadPlus => 0x4e,
            Key::Keypad1 => 0x4f,
            Key::Keypad2 => 0x50,
            Key::Keypad3 => 0x51,
            Key::Keypad0 => 0x52,
            Key::KeypadDot => 0x53,
            Key::F11 => 0x57,
            Key::F12 => 0x58,
            Key::KeypadEnter => 0x60,
            Key::RightCtrl => 0x61,
            Key::KeypadSlash => 0x62,
            Key::SysRq => 0x63,
            Key::RightAlt => 0x64,
            Key::Home => 0x66,
            Key::Up => 0x67,
            Key::PageUp => 0x68,
            Key::Left => 0x69,
            Key::Right => 0x6a,
            Key::End => 0x6b,
            Key::Down => 0x6c,
            Key::PageDown => 0x6d,
            Key::Insert => 0x6e,
            Key::Delete => 0x6f,
            Key::KeypadEqual => 0x75,
            Key::KeypadPlusMinus => 0x76,
            Key::Pause => 0x77,
            Key::KeypadComma => 0x79,
            Key::LeftMeta => 0x7d,
            Key::RightMeta => 0x7e,
            Key::MouseLeft => 0x110,
            Key::MouseRight => 0x111,
            Key::MouseMiddle => 0x112,
            Key::MouseExtra1 => 0x113,
            Key::MouseExtra2 => 0x114,
            Key::MouseExtra3 => 0x115,
            Key::MouseExtra4 => 0x116,
            Key::MouseExtra5 => 0x117,
            Key::PadSouth => 0x130,
            Key::PadEast => 0x131,
            Key::PadNorth => 0x133,
            Key::PadWest => 0x134,
            Key::ShoulderLeft => 0x136,
            Key::ShoulderRight => 0x137,
            Key::ShoulderLeftLower => 0x138,
            Key::ShoulderRightLower => 0x139,
            Key::Select => 0x13a,
            Key::Start => 0x13b,
            Key::HomeButton => 0x13c,
            Key::StickLeft => 0x13d,
            Key::StickRight => 0x13e,
            Key::PadUp => 0x220,
            Key::PadDown => 0x221,
            Key::PadLeft => 0x222,
            Key::PadRight => 0x223,
            Key::ButtonMisc => 0x100,
            Key::TriggerHappy => 0x2c0,
            Key::Other(code) => code,
        }
    }
}

impl FromCode for Key {
    open spec fn spec_from_code(code: u16) -> Key {
        match code {
            1 => Key::Escape,
            2 => Key::Digit1,
            3 => Key::Digit2,
            4 => Key::Digit3,
            5 => Key::Digit4,
            6 => Key::Digit5,
            7 => Key::Digit6,
            8 => Key::Digit7,
            9 => Key::Digit8,
            0x0a => Key::Digit9,
            0x0b => Key::Digit0,
            0x0c => Key::Minus,
            0x0d => Key::Equal,
            0x0e => Key::Backspace,
            0x0f => Key::Tab,
            0x10 => Key::Q,
            0x11 => Key::W,
            0x12 => Key::E,
            0x13 => Key::R,
            0x14 => Key::T,
            0x15 => Key::Y,
            0x16 => Key::U,
            0x17 => Key::I,
            0x18 => Key::O,
            0x19 => Key::P,
            0x1a => Key::LeftBrace,
            0x1b => Key::RightBrace,
            0x1c => Key::Enter,
            0x1d => Key::LeftCtrl,
            0x1e => Key::A,
            0x1f => Key::S,
            0x20 => Key::D,
            0x21 => Key::F,
            0x22 => Key::G,
            0x23 => Key::H,
            0x24 => Key::J,
            0x25 => Key::K,
            0x26 => Key::L,
            0x27 => Key::Semicolon,
            0x28 => Key::Apostrophe,
            0x29 => Key::Grave,
            0x2a => Key::LeftShift,
            0x2b => Key::Backslash,
            0x2c => Key::Z,
            0x2d => Key::X,
            0x2e => Key::C,
            0x2f => Key::V,
            0x30 => Key::B,
            0x31 => Key::N,
            0x32 => Key::M,
            0x33 => Key::Comma,
            0x34 => Key::Dot,
            0x35 => Key::Slash,
            0x36 => Key::RightShift,
            0x37 => Key::KeypadAsterisk,
            0x38 => Key::LeftAlt,
            0x39 => Key::Space,
            0x3a => Key::CapsLock,
            0x3b => Key::F1,
            0x3c => Key::F2,
            0x3d => Key::F3,
            0x3e => Key::F4,
            0x3f => Key::F5,
            0x40 => Key::F6,
            0x41 => Key::F7,
            0x42 => Key::F8,
            0x43 => Key::F9,
            0x44 => Key::F10,
            0x45 => Key::NumLock,
            0x46 => Key::ScrollLock,
            0x47 => Key::Keypad7,
            0x48 => Key::Keypad8,
            0x49 => Key::Keypad9,
            0x4a => Key::KeypadMinus,
            0x4b => Key::Keypad4,
            0x4c => Key::Keypad5,
            0x4d => Key::Keypad6,
            0x4e => Key::KeypadPlus,
            0x4f => Key::Keypad1,
            0x50 => Key::Keypad2,
            0x51 => Key::Keypad3,
            0x52 => Key::Keypad0,
            0x53 => Key::KeypadDot,
            0x57 => Key::F11,
            0x58 => Key::F12,
            0x60 => Key::KeypadEnter,
            0x61 => Key::RightCtrl,
            0x62 => Key::KeypadSlash,
            0x63 => Key::SysRq,
            0x64 => Key::RightAlt,
            0x66 => Key::Home,
            0x67 => Key::Up,
            0x68 => Key::PageUp,
            0x69 => Key::Left,
            0x6a => Key::Right,
            0x6b => Key::End,
            0x6c => Key::Down,
            0x6d => Key::PageDown,
            0x6e => Key::Insert,
            0x6f => Key::Delete,
            0x75 => Key::KeypadEqual,
            0x76 => Key::KeypadPlusMinus,
            0x77 => Key::Pause,
            0x79 => Key::KeypadComma,
            0x7d => Key::LeftMeta,
            0x7e => Key::RightMeta,
            0x110 => Key::MouseLeft,
            0x111 => Key::MouseRight,
            0x112 => Key::MouseMiddle,
            0x113 => Key::MouseExtra1,
            0x114 => Key::MouseExtra2,
            0x115 => Key::MouseExtra3,
            0x116 => Key::MouseExtra4,
            0x117 => Key::MouseExtra5,
            0x130 => Key::PadSouth,
            0x131 => Key::PadEast,
            0x133 => Key::PadNorth,
            0x134 => Key::PadWest,
            0x136 => Key::ShoulderLeft,
            0x137 => Key::ShoulderRight,
            0x138 => Key::ShoulderLeftLower,
            0x139 => Key::ShoulderRightLower,
            0x13a => Key::Select,
            0x13b => Key::Start,
            0x13c => Key::HomeButton,
            0x13d => Key::StickLeft,
            0x13e => Key::StickRight,
            0x220 => Key::PadUp,
            0x221 => Key::PadDown,
            0x222 => Key::PadLeft,
            0x223 => Key::PadRight,
            0x100 => Key::ButtonMisc,
            0x2c0 => Key::TriggerHappy,
            _ => Key::Other(code),
        }
    }

    fn from_code(code: u16) -> (r: Key) {
        match code {
            1 => Key::Escape,
            2 => Key::Digit1,
            3 => Key::Digit2,
            4 => Key::Digit3,
            5 => Key::Digit4,
            6 => Key::Digit5,
            7 => Key::Digit6,
            8 => Key::Digit7,
            9 => Key::Digit8,
            0x0a => Key::Digit9,
            0x0b => Key::Digit0,
            0x0c => Key::Minus,
            0x0d => Key::Equal,
            0x0e => Key::Backspace,
            0x0f => Key::Tab,
            0x10 => Key::Q,
            0x11 => Key::W,
            0x12 => Key::E,
            0x13 => Key::R,
            0x14 => Key::T,
            0x15 => Key::Y,
            0x16 => Key::U,
            0x17 => Key::I,
            0x18 => Key::O,
            0x19 => Key::P,
            0x1a => Key::LeftBrace,
            0x1b => Key::RightBrace,
            0x1c => Key::Enter,
            0x1d => Key::LeftCtrl,
            0x1e => Key::A,
            0x1f => Key::S,
            0x20 => Key::D,
            0x21 => Key::F,
            0x22 => Key::G,
            0x23 => Key::H,
            0x24 => Key::J,
            0x25 => Key::K,
            0x26 => Key::L,
            0x27 => Key::Semicolon,
            0x28 => Key::Apostrophe,
            0x29 => Key::Grave,
            0x2a => Key::LeftShift,
            0x2b => Key::Backslash,
            0x2c => Key::Z,
            0x2d => Key::X,
            0x2e => Key::C,
            0x2f => Key::V,
            0x30 => Key::B,
            0x31 => Key::N,
            0x32 => Key::M,
            0x33 => Key::Comma,
            0x34 => Key::Dot,
            0x35 => Key::Slash,
            0x36 => Key::RightShift,
            0x37 => Key::KeypadAsterisk,
            0x38 => Key::LeftAlt,
            0x39 => Key::Space,
            0x3a => Key::CapsLock,
            0x3b => Key::F1,
            0x3c => Key::F2,
            0x3d => Key::F3,
            0x3e => Key::F4,
            0x3f => Key::F5,
            0x40 => Key::F6,
            0x41 => Key::F7,
            0x42 => Key::F8,
            0x43 => Key::F9,
            0x44 => Key::F10,
            0x45 => Key::NumLock,
            0x46 => Key::ScrollLock,
            0x47 => Key::Keypad7,
            0x48 => Key::Keypad8,
            0x49 => Key::Keypad9,
            0x4a => Key::KeypadMinus,
            0x4b => Key::Keypad4,
            0x4c => Key::Keypad5,
            0x4d => Key::Keypad6,
            0x4e => Key::KeypadPlus,
            0x4f => Key::Keypad1,
            0x50 => Key::Keypad2,
            0x51 => Key::Keypad3,
            0x52 => Key::Keypad0,
            0x53 => Key::KeypadDot,
            0x57 => Key::F11,
            0x58 => Key::F12,
            0x60 => Key::KeypadEnter,
            0x61 => Key::RightCtrl,
            0x62 => Key::KeypadSlash,
            0x63 => Key::SysRq,
            0x64 => Key::RightAlt,
            0x66 => Key::Home,
            0x67 => Key::Up,
            0x68 => Key::PageUp,
            0x69 => Key::Left,
            0x6a => Key::Right,
            0x6b => Key::End,
            0x6c => Key::Down,
            0x6d => Key::PageDown,
            0x6e => Key::Insert,
            0x6f => Key::Delete,
            0x75 => Key::KeypadEqual,
            0x76 => Key::KeypadPlusMinus,
            0x77 => Key::Pause,
            0x79 => Key::KeypadComma,
            0x7d => Key::LeftMeta,
            0x7e => Key::RightMeta,
            0x110 => Key::MouseLeft,
            0x111 => Key::MouseRight,
            0x112 => Key::MouseMiddle,
            0x113 => Key::MouseExtra1,
            0x114 => Key::MouseExtra2,
            0x115 => Key::MouseExtra3,
            0x116 => Key::MouseExtra4,
            0x117 => Key::MouseExtra5,
            0x130 => Key::PadSouth,
            0x131 => Key::PadEast,
            0x133 => Key::PadNorth,
            0x134 => Key::PadWest,
            0x136 => Key::ShoulderLeft,
            0x137 => Key::ShoulderRight,
            0x138 => Key::ShoulderLeftLower,
            0x139 => Key::ShoulderRightLower,
            0x13a => Key::Select,
            0x13b => Key::Start,
            0x13c => Key::HomeButton,
            0x13d => Key::StickLeft,
            0x13e => Key::StickRight,
            0x220 => Key::PadUp,
            0x221 => Key::PadDown,
            0x222 => Key::PadLeft,
            0x223 => Key::PadRight,
            0x100 => Key::ButtonMisc,
            0x2c0 => Key::TriggerHappy,
            _ => Key::Other(code),
        }
    }
}

impl EventCode for Key {
    open spec fn spec_event_kind() -> EventKind {
        EventKind::Key
    }

    fn event_kind() -> (k: EventKind) {
        EventKind::Key
    }
}

/// Decoding a code and re-encoding it gives the code back, for every code.
pub proof fn lemma_key_code_round_trip(code: u16)
    ensures
        <Key as FromCode>::spec_from_code(code).spec_code() == code,
        <Key as FromCode>::spec_from_code(code).wf(),
{
}

/// A relative-axis code.
#[derive(Copy, Clone, PartialEq, Eq, Structural, Debug, Hash)]
pub enum RelativeAxis {
    X,
    Y,
    Z,
    RX,
    RY,
    RZ,
    Wheel,
    WheelHiRes,
    Other(u16),
}

impl RelativeAxis {
    /// The numeric code this value stands for on the wire.
    pub open spec fn spec_code(self) -> u16 {
        match self {
            RelativeAxis::X => 0,
            RelativeAxis::Y => 1,
            RelativeAxis::Z => 2,
            RelativeAxis::RX => 3,
            RelativeAxis::RY => 4,
            RelativeAxis::RZ => 5,
            RelativeAxis::Wheel => 8,
            RelativeAxis::WheelHiRes => 0x0b,
            RelativeAxis::Other(code) => code,
        }
    }

    /// A value is canonical when decoding its own code gives it back:
    /// an `Other` payload never shadows a named code.
    pub open spec fn wf(self) -> bool {
        <RelativeAxis as FromCode>::spec_from_code(self.spec_code()) == self
    }

    /// The numeric code this value stands for on the wire.
    pub fn raw(&self) -> (r: u16)
        ensures
            r == self.spec_code(),
    {
        match *self {
            RelativeAxis::X => 0,
            RelativeAxis::Y => 1,
            RelativeAxis::Z => 2,
            RelativeAxis::RX => 3,
            RelativeAxis::RY => 4,
            RelativeAxis::RZ => 5,
            RelativeAxis::Wheel => 8,
            RelativeAxis::WheelHiRes => 0x0b,
            RelativeAxis::Other(code) => code,
        }
    }
}

impl FromCode for RelativeAxis {
    open spec fn spec_from_code(code: u16) -> RelativeAxis {
        match code {
            0 => RelativeAxis::X,
            1 => RelativeAxis::Y,
            2 => RelativeAxis::Z,
            3 => RelativeAxis::RX,
            4 => RelativeAxis::RY,
            5 => RelativeAxis::RZ,
            8 => RelativeAxis::Wheel,
            0x0b => RelativeAxis::WheelHiRes,
            _ => RelativeAxis::Other(code),
        }
    }

    fn from_code(code: u16) -> (r: RelativeAxis) {
        match code {
            0 => RelativeAxis::X,
            1 => RelativeAxis::Y,
            2 => RelativeAxis::Z,
            3 => RelativeAxis::RX,
            4 => RelativeAxis::RY,
            5 => RelativeAxis::RZ,
            8 => RelativeAxis::Wheel,
            0x0b => RelativeAxis::WheelHiRes,
            _ => RelativeAxis::Other(code),
        }
    }
}

impl EventCode for RelativeAxis {
    open spec fn spec_event_kind() -> EventKind {
        EventKind::RelativeAxis
    }

    fn event_kind() -> (k: EventKind) {
        EventKind::RelativeAxis
    }
}

/// Decoding a code and re-encoding it gives the code back, for every code.
pub proof fn lemma_relativeaxis_code_round_trip(code: u16)
    ensures
        <RelativeAxis as FromCode>::spec_from_code(code).spec_code() == code,
        <RelativeAxis as FromCode>::spec_from_code(code).wf(),
{
}

/// An absolute-axis code.
#[derive(Copy, Clone, PartialEq, Eq, Structural, Debug, Hash)]
pub enum AbsoluteAxis {
    X,
    Y,
    Z,
    RX,
    RY,
    RZ,
    Hat0X,
    Hat0Y,
    Hat1X,
    Hat1Y,
    Hat2X,
    Hat2Y,
    Misc,
    Other(u16),
}

impl AbsoluteAxis {
    /// The numeric code this value stands for on the wire.
    pub open spec fn spec_code(self) -> u16 {
        match self {
            AbsoluteAxis::X => 0,
            AbsoluteAxis::Y => 1,
            AbsoluteAxis::Z => 2,
            AbsoluteAxis::RX => 3,
            AbsoluteAxis::RY => 4,
            AbsoluteAxis::RZ => 5,
            AbsoluteAxis::Hat0X => 0x10,
            AbsoluteAxis::Hat0Y => 0x11,
            AbsoluteAxis::Hat1X => 0x12,
            AbsoluteAxis::Hat1Y => 0x13,
            AbsoluteAxis::Hat2X => 0x14,
            AbsoluteAxis::Hat2Y => 0x15,
            AbsoluteAxis::Misc => 0x28,
            AbsoluteAxis::Other(code) => code,
        }
    }

    /// A value is canonical when decoding its own code gives it back:
    /// an `Other` payload never shadows a named code.
    pub open spec fn wf(self) -> bool {
        <AbsoluteAxis as FromCode>::spec_from_code(self.spec_code()) == self
    }

    /// The numeric code this value stands for on the wire.
    pub fn raw(&self) -> (r: u16)
        ensures
            r == self.spec_code(),
    {
        match *self {
            AbsoluteAxis::X => 0,
            AbsoluteAxis::Y => 1,
            AbsoluteAxis::Z => 2,
            AbsoluteAxis::RX => 3,
            AbsoluteAxis::RY => 4,
            AbsoluteAxis::RZ => 5,
            AbsoluteAxis::Hat0X => 0x10,
            AbsoluteAxis::Hat0Y => 0x11,
            AbsoluteAxis::Hat1X => 0x12,
            AbsoluteAxis::Hat1Y => 0x13,
            AbsoluteAxis::Hat2X => 0x14,
            AbsoluteAxis::Hat2Y => 0x15,
            AbsoluteAxis::Misc => 0x28,
            AbsoluteAxis::Other(code) => code,
        }
    }
}

impl FromCode for AbsoluteAxis {
    open spec fn spec_from_code(code: u16) -> AbsoluteAxis {
        match code {
            0 => AbsoluteAxis::X,
            1 => AbsoluteAxis::Y,
            2 => AbsoluteAxis::Z,
            3 => AbsoluteAxis::RX,
            4 => AbsoluteAxis::RY,
            5 => AbsoluteAxis::RZ,
            0x10 => AbsoluteAxis::Hat0X,
            0x11 => AbsoluteAxis::Hat0Y,
            0x12 => AbsoluteAxis::Hat1X,
            0x13 => AbsoluteAxis::Hat1Y,
            0x14 => AbsoluteAxis::Hat2X,
            0x15 => AbsoluteAxis::Hat2Y,
            0x28 => AbsoluteAxis::Misc,
            _ => AbsoluteAxis::Other(code),
        }
    }

    fn from_code(code: u16) -> (r: AbsoluteAxis) {
        match code {
            0 => AbsoluteAxis::X,
            1 => AbsoluteAxis::Y,
            2 => AbsoluteAxis::Z,
            3 => AbsoluteAxis::RX,
            4 => AbsoluteAxis::RY,
            5 => AbsoluteAxis::RZ,
            0x10 => AbsoluteAxis::Hat0X,
            0x11 => AbsoluteAxis::Hat0Y,
            0x12 => AbsoluteAxis::Hat1X,
            0x13 => AbsoluteAxis::Hat1Y,
            0x14 => AbsoluteAxis::Hat2X,
            0x15 => AbsoluteAxis::Hat2Y,
            0x28 => AbsoluteAxis::Misc,
            _ => AbsoluteAxis::Other(code),
        }
    }
}

impl EventCode for AbsoluteAxis {
    open spec fn spec_event_kind() -> EventKind {
        EventKind::AbsoluteAxis
    }

    fn event_kind() -> (k: EventKind) {
        EventKind::AbsoluteAxis
    }
}

/// Decoding a code and re-encoding it gives the code back, for every code.
pub proof fn lemma_absoluteaxis_code_round_trip(code: u16)
    ensures
        <AbsoluteAxis as FromCode>::spec_from_code(code).spec_code() == code,
        <AbsoluteAxis as FromCode>::spec_from_code(code).wf(),
{
}

/// The bus a device is attached through.
#[derive(Copy, Clone, PartialEq, Eq, Structural, Debug, Hash)]
pub enum Bus {
    PCI,
    USB,
    HIL,
    Bluetooth,
    Virtual,
    ISA,
    Host,
    Other(u16),
}

impl Bus {
    /// The numeric code this value stands for on the wire.
    pub open spec fn spec_code(self) -> u16 {
        match self {
            Bus::PCI => 1,
            Bus::USB => 3,
            Bus::HIL => 4,
            Bus::Bluetooth => 5,
            Bus::Virtual => 6,
            Bus::ISA => 0x10,
            Bus::Host => 0x19,
            Bus::Other(code) => code,
        }
    }

    /// A value is canonical when decoding its own code gives it back:
    /// an `Other` payload never shadows a named code.
    pub open spec fn wf(self) -> bool {
        <Bus as FromCode>::spec_from_code(self.spec_code()) == self
    }

    /// The numeric code this value stands for on the wire.
    pub fn raw(&self) -> (r: u16)
        ensures
            r == self.spec_code(),
    {
        match *self {
            Bus::PCI => 1,
            Bus::USB => 3,
            Bus::HIL => 4,
            Bus::Bluetooth => 5,
            Bus::Virtual => 6,
            Bus::ISA => 0x10,
            Bus::Host => 0x19,
            Bus::Other(code) => code,
        }
    }
}

impl FromCode for Bus {
    open spec fn spec_from_code(code: u16) -> Bus {
        match code {
            1 => Bus::PCI,
            3 => Bus::USB,
            4 => Bus::HIL,
            5 => Bus::Bluetooth,
            6 => Bus::Virtual,
            0x10 => Bus::ISA,
            0x19 => Bus::Host,
            _ => Bus::Other(code),
        }
    }

    fn from_code(code: u16) -> (r: Bus) {
        match code {
            1 => Bus::PCI,
            3 => Bus::USB,
            4 => Bus::HIL,
            5 => Bus::Bluetooth,
            6 => Bus::Virtual,
            0x10 => Bus::ISA,
            0x19 => Bus::Host,
            _ => Bus::Other(code),
        }
    }
}

/// Decoding a code and re-encoding it gives the code back, for every code.
pub proof fn lemma_bus_code_round_trip(code: u16)
    ensures
        <Bus as FromCode>::spec_from_code(code).spec_code() == code,
        <Bus as FromCode>::spec_from_code(code).wf(),
{
}

/// A force-feedback capability code.
#[derive(Copy, Clone, PartialEq, Eq, Structural, Debug, Hash)]
pub enum ForceFeedback {
    Rumble,
    Other(u16),
}

impl ForceFeedback {
    /// The numeric code this value stands for on the wire.
    pub open spec fn spec_code(self) -> u16 {
        match self {
            ForceFeedback::Rumble => 0x50,
            ForceFeedback::Other(code) => code,
        }
    }

    /// A value is canonical when decoding its own code gives it back:
    /// an `Other` payload never shadows a named code.
    pub open spec fn wf(self) -> bool {
        <ForceFeedback as FromCode>::spec_from_code(self.spec_code()) == self
    }

    /// The numeric code this value stands for on the wire.
    pub fn raw(&self) -> (r: u16)
        ensures
            r == self.spec_code(),
    {
        match *self {
            ForceFeedback::Rumble => 0x50,
            ForceFeedback::Other(code) => code,
        }
    }
}

impl FromCode for ForceFeedback {
    open spec fn spec_from_code(code: u16) -> ForceFeedback {
        match code {
            0x50 => ForceFeedback::Rumble,
            _ => ForceFeedback::Other(code),
        }
    }

    fn from_code(code: u16) -> (r: ForceFeedback) {
        match code {
            0x50 => ForceFeedback::Rumble,
            _ => ForceFeedback::Other(code),
        }
    }
}

impl EventCode for ForceFeedback {
    open spec fn spec_event_kind() -> EventKind {
        EventKind::ForceFeedback
    }

    fn event_kind() -> (k: EventKind) {
        EventKind::ForceFeedback
    }
}

/// Decoding a code and re-encoding it gives the code back, for every code.
pub proof fn lemma_forcefeedback_code_round_trip(code: u16)
    ensures
        <ForceFeedback as FromCode>::spec_from_code(code).spec_code() == code,
        <ForceFeedback as FromCode>::spec_from_code(code).wf(),
{
}

} // verus!
