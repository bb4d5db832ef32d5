//! The events that the engine consumes.

use crate::geometry::{Point, Scale, Vector};
use crate::keys::{Key, KeyModifiers, KeyState};
use vstd::prelude::*;

verus! {

/// The identity of one top-level browsing context, a "tab".
#[derive(Clone, Copy, Debug, PartialEq, Eq, Structural)]
pub struct BrowserId {
    pub namespace_id: u32,
    pub index: u32,
}

/// A mouse button as the engine names it.
#[derive(Clone, Copy, Debug, PartialEq, Eq, Structural)]
pub enum MouseButton {
    Left,
    Middle,
    Right,
}

/// What a mouse button did, and where.
#[derive(Clone, Copy, Debug, PartialEq, Eq, Structural)]
pub enum MouseWindowEvent {
    Click(MouseButton, Point),
    MouseDown(MouseButton, Point),
    MouseUp(MouseButton, Point),
}

/// The phase of a touch or of a scroll gesture.
#[derive(Clone, Copy, Debug, PartialEq, Eq, Structural)]
pub enum TouchEventType {
    Down,
    Move,
    Up,
    Cancel,
}

/// The identity of one finger on a touch surface.
#[derive(Clone, Copy, Debug, PartialEq, Eq, Structural)]
pub struct TouchId(pub i32);

/// Where a scroll goes: by a displacement, or to either end of the document.
#[derive(Clone, Copy, Debug, PartialEq, Eq, Structural)]
pub enum ScrollLocation {
    Delta(Vector),
    Start,
    End,
}

/// One platform-independent input or window occurrence, as handed to the
/// engine. Events are queued in the order in which they arose.
#[derive(Clone, Debug, PartialEq, Eq)]
pub enum WindowEvent {
    /// Nothing happened; the engine gets a chance to run.
    Idle,
    /// The window must be drawn again.
    Refresh,
    /// The window has a new size.
    Resize,
    /// A finger went down, moved, went up or was lost.
    Touch(TouchEventType, TouchId, Point),
    /// A scroll at the given cursor position.
    Scroll(ScrollLocation, Point, TouchEventType),
    /// Magnify the page by the given ratio.
    Zoom(Scale),
    /// Magnify the viewport by the given ratio.
    PinchZoom(Scale),
    /// Go back to the initial magnification.
    ResetZoom,
    /// A mouse button went down or up, or clicked.
    MouseWindowEventClass(MouseWindowEvent),
    /// The cursor moved to the given position.
    MouseWindowMoveEventClass(Point),
    /// A key changed state; the character is the one it produced, if any.
    KeyEvent(Option<char>, Key, KeyState, KeyModifiers),
    /// The window is to close.
    Quit,
    /// Open a browser on the given address under the given identity.
    NewBrowser(String, BrowserId),
    /// Make the given browser the one that is shown.
    SelectBrowser(BrowserId),
    /// A reply could not be delivered: the browser it concerned, if known,
    /// and the reason in words.
    SendError(Option<BrowserId>, String),
}

} // verus!
