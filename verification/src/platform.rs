//! The input of the host window, in the units the translator works in.
//!
//! The host converts what its windowing toolkit delivers into these values:
//! positions and sizes in whole device pixels, wheel movements in parts of
//! a line or of a pixel, keys already looked up in its key tables.

use crate::geometry::{Point, Size};
use crate::keys::Key;
use vstd::prelude::*;

verus! {

/// Whether a key or a button went down or came up.
#[derive(Clone, Copy, Debug, PartialEq, Eq, Structural)]
pub enum ElementState {
    Pressed,
    Released,
}

/// A mouse button as the platform names it.
#[derive(Clone, Copy, Debug, PartialEq, Eq, Structural)]
pub enum PlatformButton {
    Left,
    Right,
    Middle,
    Other(u8),
}

/// The phase of a touch or of a wheel gesture as the platform names it.
#[derive(Clone, Copy, Debug, PartialEq, Eq, Structural)]
pub enum TouchPhase {
    Started,
    Moved,
    Ended,
    Cancelled,
}

/// The modifier keys that the platform reports as held with a key event.
#[derive(Clone, Copy, Debug, PartialEq, Eq, Structural)]
pub struct ModifiersState {
    pub shift: bool,
    pub ctrl: bool,
    pub alt: bool,
    pub logo: bool,
}

/// What a wheel reports, horizontally and vertically: lines or device
/// pixels, either in parts of which `UNITS_PER_PIXEL` make one.
#[derive(Clone, Copy, Debug, PartialEq, Eq, Structural)]
pub enum MouseScrollDelta {
    LineDelta(i32, i32),
    PixelDelta(i32, i32),
}

/// One event of the host window.
#[derive(Clone, Copy, Debug, PartialEq, Eq, Structural)]
pub enum PlatformEvent {
    /// Text input produced `ch`; `key` is the logical key that the
    /// character stands for, if it stands for one.
    ReceivedCharacter { ch: char, key: Option<Key> },
    /// A key went down or up. `key` is its logical key, if it has one;
    /// `printable` says whether a character is expected to follow a press.
    KeyboardInput { state: ElementState, key: Option<Key>, printable: bool, modifiers: ModifiersState },
    /// A mouse button went down or up at the last cursor position.
    MouseInput { state: ElementState, button: PlatformButton },
    /// The cursor moved.
    CursorMoved { position: Point },
    /// The wheel turned.
    MouseWheel { delta: MouseScrollDelta, phase: TouchPhase },
    /// A finger touched, moved on or left the surface.
    Touch { phase: TouchPhase, id: i32, location: Point },
    /// The window asks to be drawn again.
    Refresh,
    /// The user asked to close the window.
    CloseRequested,
    /// The window was resized to `size`.
    Resized { size: Size },
    /// The application was suspended (`true`) or resumed (`false`).
    Suspended(bool),
    /// The event loop was woken from another thread.
    Awakened,
    /// Anything else; it is ignored.
    Other,
}

/// Releases what the platform layer holds once the run loop has ended.
/// Nothing is held on the platforms served here.
pub fn deinit() {
}

} // verus!
