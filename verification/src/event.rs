//! Events: what the X server reports, and what a window hands on.
use vstd::prelude::*;

verus! {

/// Whether a key or a button went down or up.
#[derive(Clone, Copy, Debug, PartialEq, Eq, Structural)]
pub enum ElementState {
    Pressed,
    Released,
}

/// A pointer button.
#[derive(Clone, Copy, Debug, PartialEq, Eq, Structural)]
pub enum MouseButton {
    Left,
    Right,
    Middle,
}

/// A key by its meaning, as a number of the embedding program's key table.
#[derive(Clone, Copy, Debug, PartialEq, Eq, Structural)]
pub struct VirtualKeyCode(pub u32);

/// What a window reports to the program. A wheel moves by whole lines: sideways, then upwards.
#[derive(Clone, Copy, Debug, PartialEq, Eq)]
pub enum Event {
    Resized(u32, u32),
    Closed,
    ReceivedCharacter(char),
    KeyboardInput(ElementState, u8, Option<VirtualKeyCode>),
    MouseMoved((i32, i32)),
    MouseWheel(i32, i32),
    MouseInput(ElementState, MouseButton),
    Awakened,
    Refresh,
}

/// An event of the X server: its type, and every number of it that some type gives a meaning.
/// The numbers of other types than its own are arbitrary.
#[derive(Clone, Copy, Debug, PartialEq, Eq, Structural)]
pub struct XEvent {
    /// The event's type.
    pub type_: i32,
    /// The first item of a client message.
    pub data: i64,
    /// The width that a configure event reports.
    pub width: i32,
    /// The height that a configure event reports.
    pub height: i32,
    /// The horizontal place that a motion event reports.
    pub x: i32,
    /// The vertical place that a motion event reports.
    pub y: i32,
    /// The key of a key event.
    pub keycode: u32,
    /// The button of a button event.
    pub button: u32,
}

} // verus!
