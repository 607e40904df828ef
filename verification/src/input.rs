//! Input-device event records carried across the call gate.
use vstd::prelude::*;

verus! {

/// The kind of a mouse event.
#[derive(Debug, Clone, Copy, PartialEq, Eq, Structural)]
pub enum MouseEventKind {
    Null,
    /// A change in the mouse status; the exact change is not reported
    /// because there could be several at once.
    Change,
}

/// The pressed-button status of a mouse, as a bit set.
#[derive(Debug, Clone, Copy, PartialEq, Eq, Structural)]
pub struct MiceBtnStatus(u32);

impl MiceBtnStatus {
    pub const BTN_LEFT: u32 = 1;

    pub const BTN_RIGHT: u32 = 2;

    pub const BTN_MID: u32 = 3;

    pub const NO_BUTTONS: u32 = 0;

    /// The raw bits of this status.
    pub closed spec fn spec_bits(self) -> u32 {
        self.0
    }

    /// Builds a status from raw bits.
    pub fn from_bits(bits: u32) -> (r: Self)
        ensures
            r.spec_bits() == bits,
    {
        Self(bits)
    }

    /// Whether every bit of `other` is set in this status.
    pub fn contains(&self, other: Self) -> (r: bool)
        ensures
            r == ((self.spec_bits() & other.spec_bits()) == other.spec_bits()),
    {
        (self.0 & other.0) == other.0
    }

    pub fn or(&self, other: Self) -> (r: Self)
        ensures
            r.spec_bits() == (self.spec_bits() | other.spec_bits()),
    {
        Self(self.0 | other.0)
    }

    pub fn and(&self, other: Self) -> (r: Self)
        ensures
            r.spec_bits() == (self.spec_bits() & other.spec_bits()),
    {
        Self(self.0 & other.0)
    }

    pub fn not(&self) -> (r: Self)
        ensures
            r.spec_bits() == !self.spec_bits(),
    {
        Self(!self.0)
    }
}

/// Describes a mouse change event.
#[derive(Debug, Clone, Copy, PartialEq, Eq, Structural)]
pub struct MiceEvent {
    pub kind: MouseEventKind,
    /// The buttons status.
    pub buttons_status: MiceBtnStatus,
    /// The X relative change; positive means right, negative means left.
    pub x_rel_change: i16,
    /// The Y relative change; positive means up, negative means down,
    /// assuming a coordinate system where a bigger Y is further up — which
    /// most software inverts.
    pub y_rel_change: i16,
}

impl MiceEvent {
    /// Constructs a null event.
    pub fn null() -> (r: Self)
        ensures
            r.kind == MouseEventKind::Null,
            r.buttons_status.spec_bits() == 0,
            r.x_rel_change == 0,
            r.y_rel_change == 0,
    {
        Self {
            kind: MouseEventKind::Null,
            buttons_status: MiceBtnStatus::from_bits(0),
            x_rel_change: 0,
            y_rel_change: 0,
        }
    }
}

/// The kind of a key event.
#[derive(Debug, Clone, Copy, PartialEq, Eq, Structural)]
pub enum KeyEventKind {
    Null,
    Press,
    Release,
}

/// A key event sent by a keyboard driver.
#[derive(Debug, Clone, Copy, PartialEq, Eq, Structural)]
pub struct KeyEvent {
    pub kind: KeyEventKind,
    pub code: KeyCode,
}

impl KeyEvent {
    /// Constructs a null key event.
    pub fn null() -> (r: Self)
        ensures
            r == (KeyEvent { kind: KeyEventKind::Null, code: KeyCode::Null }),
    {
        Self { kind: KeyEventKind::Null, code: KeyCode::Null }
    }
}

/// The keys a keyboard driver can report.
#[derive(Clone, Copy, Debug, PartialEq, Eq, Structural)]
pub enum KeyCode {
    Null,
    F1,
    F2,
    F3,
    F4,
    F5,
    F6,
    F7,
    F8,
    F9,
    F10,
    F11,
    F12,
    PrintScr,
    Esc,
    Key1,
    Key2,
    Key3,
    Key4,
    Key5,
    Key6,
    Key7,
    Key8,
    Key9,
    Key0,
    Minus,
    Equals,
    Backspace,
    KeyQ,
    KeyW,
    KeyE,
    KeyR,
    KeyT,
    KeyY,
    KeyU,
    KeyI,
    KeyO,
    KeyP,
    LeftBrace,
    RightBrace,
    BackSlash,
    KeyA,
    KeyS,
    KeyD,
    KeyF,
    KeyG,
    KeyH,
    KeyJ,
    KeyK,
    KeyL,
    Semicolon,
    DoubleQuote,
    Return,
    KeyZ,
    KeyX,
    KeyC,
    KeyV,
    KeyB,
    KeyN,
    KeyM,
    BackQuote,
    Comma,
    Dot,
    Slash,
    Tab,
    CapsLock,
    Ctrl,
    Shift,
    Alt,
    Super,
    Space,
    Up,
    Down,
    Left,
    Right,
    PageUp,
    PageDown,
    Insert,
    Delete,
    Home,
    End,
    /// Used to figure out the number of key codes.
    LastKey,
}

} // verus!
