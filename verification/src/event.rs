//! Input events as widgets see them, and what a hit test on the last frame
//! reports.

use vstd::prelude::*;

verus! {

pub const MOD_SHIFT: u8 = 1;

pub const MOD_ALT: u8 = 2;

pub const MOD_CTRL: u8 = 4;

/// The modifier keys held down, one bit each.
#[derive(Debug, Clone, Copy, PartialEq, Eq, Structural)]
pub struct Modifiers(pub u8);

impl Modifiers {
    /// Whether shift is held.
    pub open spec fn spec_shift(self) -> bool {
        self.0 & MOD_SHIFT == MOD_SHIFT
    }

    /// No modifier.
    pub fn empty() -> (m: Modifiers)
        ensures
            m.0 == 0,
    {
        Modifiers(0)
    }

    /// Shift alone.
    pub fn shift() -> (m: Modifiers)
        ensures
            m.0 == MOD_SHIFT,
    {
        Modifiers(MOD_SHIFT)
    }

    /// Whether every modifier of `other` is held.
    pub fn contains(&self, other: Modifiers) -> (r: bool)
        ensures
            r == (self.0 & other.0 == other.0),
    {
        self.0 & other.0 == other.0
    }
}

/// A key.
#[derive(Debug, Clone, Copy, PartialEq, Eq, Structural)]
pub enum KeyCode {
    Char(char),
    Enter,
    Escape,
    Tab,
    Backspace,
    Delete,
    Left,
    Right,
    Up,
    Down,
    Home,
    End,
}

/// Whether a key went down, repeats or went up.
#[derive(Debug, Clone, Copy, PartialEq, Eq, Structural)]
pub enum KeyEventKind {
    Press,
    Repeat,
    Release,
}

/// A key event.
#[derive(Debug, Clone, Copy, PartialEq, Eq, Structural)]
pub struct KeyEvent {
    pub code: KeyCode,
    pub modifiers: Modifiers,
    pub kind: KeyEventKind,
}

impl KeyEvent {
    /// A press of `code` without modifiers.
    pub fn new(code: KeyCode) -> (e: KeyEvent)
        ensures
            e == (KeyEvent { code, modifiers: Modifiers(0), kind: KeyEventKind::Press }),
    {
        KeyEvent { code, modifiers: Modifiers(0), kind: KeyEventKind::Press }
    }
}

/// A mouse button.
#[derive(Debug, Clone, Copy, PartialEq, Eq, Structural)]
pub enum MouseButton {
    Left,
    Right,
    Middle,
}

/// What the mouse did.
#[derive(Debug, Clone, Copy, PartialEq, Eq, Structural)]
pub enum MouseEventKind {
    Down(MouseButton),
    Up(MouseButton),
    Drag(MouseButton),
    Moved,
    ScrollUp,
    ScrollDown,
}

/// A mouse event at a cell.
#[derive(Debug, Clone, Copy, PartialEq, Eq, Structural)]
pub struct MouseEvent {
    pub kind: MouseEventKind,
    pub x: u16,
    pub y: u16,
}

impl MouseEvent {
    /// A mouse event of the given kind at `(x, y)`.
    pub fn new(kind: MouseEventKind, x: u16, y: u16) -> (e: MouseEvent)
        ensures
            e == (MouseEvent { kind, x, y }),
    {
        MouseEvent { kind, x, y }
    }
}

/// An input event.
#[derive(Debug, Clone, Copy, PartialEq, Eq, Structural)]
pub enum Event {
    Key(KeyEvent),
    Mouse(MouseEvent),
    Resize { width: u16, height: u16 },
    FocusGained,
    FocusLost,
}

impl Event {
    /// Whether the event is a press of the given key.
    pub open spec fn is_press_of(self, code: KeyCode) -> bool {
        self matches Event::Key(k) && k.code == code && k.kind == KeyEventKind::Press
    }

    /// Whether the event is the left mouse button going down.
    pub open spec fn is_left_click(self) -> bool {
        self matches Event::Mouse(m) && m.kind == MouseEventKind::Down(MouseButton::Left)
    }
}

/// Identifies the widget that registered a hit area.
#[derive(Debug, Clone, Copy, PartialEq, Eq, Hash, Structural)]
pub struct HitId(pub u32);

impl HitId {
    /// The id with the given number.
    pub fn new(id: u32) -> (h: HitId)
        ensures
            h.0 == id,
    {
        HitId(id)
    }

    /// The number of the id.
    pub fn id(self) -> (n: u32)
        ensures
            n == self.0,
    {
        self.0
    }
}

/// The part of a widget that a hit area stands for.
#[derive(Debug, Clone, Copy, PartialEq, Eq, Structural)]
pub enum HitRegion {
    Empty,
    Content,
    Border,
    Button,
    Custom(u8),
}

/// What a hit test reports: the widget, the part of it, and data that the
/// widget attached.
#[derive(Debug, Clone, Copy, PartialEq, Eq, Structural)]
pub struct Hit {
    pub id: HitId,
    pub region: HitRegion,
    pub data: u64,
}

impl Hit {
    /// A hit on `region` of widget `id`.
    pub fn new(id: HitId, region: HitRegion, data: u64) -> (h: Hit)
        ensures
            h == (Hit { id, region, data }),
    {
        Hit { id, region, data }
    }
}

} // verus!
