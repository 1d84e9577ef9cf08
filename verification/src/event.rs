//! Input events as the widgets' decision functions see them. Pointer
//! coordinates are resolved by the caller into whether the pointer lies
//! inside the widget's bounds.
use vstd::prelude::*;

verus! {

/// Keys that widgets react to.
#[derive(Debug, Clone, Copy, PartialEq, Eq, Structural)]
pub enum Key {
    Enter,
    Escape,
    Backspace,
    Delete,
    Left,
    Right,
    Up,
    Down,
    Home,
    End,
    Space,
    Tab,
    Other,
}

/// Whether a key went down or up.
#[derive(Debug, Clone, Copy, PartialEq, Eq, Structural)]
pub enum KeyEventKind {
    Down,
    Up,
}

/// The kind of a pointer event.
#[derive(Debug, Clone, Copy, PartialEq, Eq, Structural)]
pub enum MouseEventKind {
    Down,
    Up,
    Move,
    Enter,
    Leave,
    Scroll,
}

/// A mouse button.
#[derive(Debug, Clone, Copy, PartialEq, Eq, Structural)]
pub enum MouseButton {
    Left,
    Right,
    Middle,
}

/// Whether a widget consumed an event.
#[derive(Debug, Clone, Copy, PartialEq, Eq, Structural)]
pub enum EventResult {
    Handled,
    Ignored,
}

/// A pointer event, with its position already tested against the widget's bounds.
#[derive(Debug, Clone, Copy, PartialEq, Eq, Structural)]
pub struct PointerEvent {
    pub kind: MouseEventKind,
    pub button: Option<MouseButton>,
    pub in_bounds: bool,
}

/// The modifier keys held during a keyboard event.
#[derive(Debug, Clone, Copy, PartialEq, Eq, Structural)]
pub struct Modifiers {
    pub shift: bool,
    pub control: bool,
    pub alt: bool,
    pub meta: bool,
}

impl Modifiers {
    /// No modifier held.
    pub fn none() -> (r: Self)
        ensures
            !r.shift && !r.control && !r.alt && !r.meta,
    {
        Modifiers { shift: false, control: false, alt: false, meta: false }
    }
}

/// A keyboard event, with the modifiers held and the text it produces, if any.
#[derive(Debug)]
pub struct KeyEvent {
    pub kind: KeyEventKind,
    pub key: Key,
    pub modifiers: Modifiers,
    pub text: Option<String>,
}

/// `b` is the left mouse button.
pub open spec fn is_left(b: Option<MouseButton>) -> bool {
    b == Some(MouseButton::Left)
}

/// Whether `b` is the left mouse button.
pub fn left_button(b: Option<MouseButton>) -> (r: bool)
    ensures
        r == is_left(b),
{
    match b {
        Some(MouseButton::Left) => true,
        _ => false,
    }
}

} // verus!
