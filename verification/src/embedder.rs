//! The notifications that the engine sends to its embedder, and what the
//! embedder asks of the host in answer.

use crate::events::BrowserId;
use crate::geometry::{Point, Size};
use crate::keys::{Key, KeyModifiers, KeyState};
use vstd::prelude::*;

verus! {

/// The cursor that the page asks for.
#[derive(Clone, Copy, Debug, PartialEq, Eq, Structural)]
pub enum CursorKind {
    Auto,
    Default,
    Pointer,
    ContextMenu,
    Help,
    Progress,
    Wait,
    Cell,
    Crosshair,
    Text,
    VerticalText,
    Alias,
    Copy,
    Move,
    NoDrop,
    NotAllowed,
    Grab,
    Grabbing,
    EResize,
    NResize,
    NeResize,
    NwResize,
    SResize,
    SeResize,
    SwResize,
    WResize,
    EwResize,
    NsResize,
    NeswResize,
    NwseResize,
    ColResize,
    RowResize,
    AllScroll,
    ZoomIn,
    ZoomOut,
    /// Any kind for which the platform has no cursor of its own.
    Other,
}

/// A cursor that the platform can show.
#[derive(Clone, Copy, Debug, PartialEq, Eq, Structural)]
pub enum MouseCursor {
    Default,
    Hand,
    ContextMenu,
    Help,
    Progress,
    Wait,
    Cell,
    Crosshair,
    Text,
    VerticalText,
    Alias,
    Copy,
    Move,
    NoDrop,
    NotAllowed,
    Grab,
    Grabbing,
    EResize,
    NResize,
    NeResize,
    NwResize,
    SResize,
    SeResize,
    SwResize,
    WResize,
    EwResize,
    NsResize,
    NeswResize,
    NwseResize,
    ColResize,
    RowResize,
    AllScroll,
    ZoomIn,
    ZoomOut,
}

/// The platform cursor for each kind: the one of the same name, the hand
/// for a pointer, and the default cursor for `Auto` and for every kind the
/// platform does not know.
pub open spec fn platform_cursor(cursor: CursorKind) -> MouseCursor {
    match cursor {
        CursorKind::Auto => MouseCursor::Default,
        CursorKind::Default => MouseCursor::Default,
        CursorKind::Pointer => MouseCursor::Hand,
        CursorKind::ContextMenu => MouseCursor::ContextMenu,
        CursorKind::Help => MouseCursor::Help,
        CursorKind::Progress => MouseCursor::Progress,
        CursorKind::Wait => MouseCursor::Wait,
        CursorKind::Cell => MouseCursor::Cell,
        CursorKind::Crosshair => MouseCursor::Crosshair,
        CursorKind::Text => MouseCursor::Text,
        CursorKind::VerticalText => MouseCursor::VerticalText,
        CursorKind::Alias => MouseCursor::Alias,
        CursorKind::Copy => MouseCursor::Copy,
        CursorKind::Move => MouseCursor::Move,
        CursorKind::NoDrop => MouseCursor::NoDrop,
        CursorKind::NotAllowed => MouseCursor::NotAllowed,
        CursorKind::Grab => MouseCursor::Grab,
        CursorKind::Grabbing => MouseCursor::Grabbing,
        CursorKind::EResize => MouseCursor::EResize,
        CursorKind::NResize => MouseCursor::NResize,
        CursorKind::NeResize => MouseCursor::NeResize,
        CursorKind::NwResize => MouseCursor::NwResize,
        CursorKind::SResize => MouseCursor::SResize,
        CursorKind::SeResize => MouseCursor::SeResize,
        CursorKind::SwResize => MouseCursor::SwResize,
        CursorKind::WResize => MouseCursor::WResize,
        CursorKind::EwResize => MouseCursor::EwResize,
        CursorKind::NsResize => MouseCursor::NsResize,
        CursorKind::NeswResize => MouseCursor::NeswResize,
        CursorKind::NwseResize => MouseCursor::NwseResize,
        CursorKind::ColResize => MouseCursor::ColResize,
        CursorKind::RowResize => MouseCursor::RowResize,
        CursorKind::AllScroll => MouseCursor::AllScroll,
        CursorKind::ZoomIn => MouseCursor::ZoomIn,
        CursorKind::ZoomOut => MouseCursor::ZoomOut,
        CursorKind::Other => MouseCursor::Default,
    }
}

/// A file-name extension that a file chooser lets through.
#[derive(Clone, Debug, PartialEq, Eq)]
pub struct FilterPattern(pub String);

/// One message from the engine. Where the engine waits for an answer, the
/// host keeps the channel for it and sends what the embedder's
/// [`HostRequest`] says.
#[derive(Clone, Debug, PartialEq, Eq)]
pub enum EmbedderMsg {
    /// The text of the status line, if there is one.
    Status(Option<String>),
    /// The title of the page, if it has one.
    ChangePageTitle(Option<String>),
    /// Move the window.
    MoveTo(Point),
    /// Resize the window.
    ResizeTo(Size),
    /// Show the text to the user; answered when the user has seen it.
    Alert(String),
    /// May the page be left? Answered with a yes or no.
    AllowUnload,
    /// May the given address be loaded? Answered with a yes or no.
    AllowNavigation(String),
    /// May a new browser be opened? Answered with a yes or no.
    AllowOpeningBrowser,
    /// A browser was created.
    BrowserCreated(BrowserId),
    /// A key event that the page did not consume.
    KeyEvent(Option<char>, Key, KeyState, KeyModifiers),
    /// Show the given cursor.
    SetCursor(CursorKind),
    /// The address of the page's icon.
    NewFavicon(String),
    /// The head of the document was parsed.
    HeadParsed,
    /// The session history and the position in it.
    HistoryChanged(Vec<String>, usize),
    /// Enter or leave fullscreen.
    SetFullscreenState(bool),
    /// A load began.
    LoadStart,
    /// A load ended.
    LoadComplete,
    /// The current browser was closed.
    CloseBrowser,
    /// The engine has shut down.
    Shutdown,
    /// A thread of the engine panicked: the reason and the backtrace.
    Panic(String, Option<String>),
    /// Which of these bluetooth devices is meant?
    GetSelectedBluetoothDevice(Vec<String>),
    /// Let the user choose one file, or several, of the given kinds.
    SelectFiles(Vec<FilterPattern>, bool),
    /// Show the on-screen keyboard.
    ShowIME,
    /// Hide the on-screen keyboard.
    HideIME,
}

/// What a file chooser is opened with.
#[derive(Clone, Debug, PartialEq, Eq)]
pub struct FilePicker {
    /// The title of the dialog.
    pub name: String,
    /// One glob per extension that is let through; none lets every file
    /// through.
    pub filters: Vec<String>,
    /// Whether several files may be chosen.
    pub multiple: bool,
}

/// What the host has to do for one notification. There is exactly one
/// request per notification, so a notification that waits for an answer
/// gets at most one.
#[derive(Clone, Debug, PartialEq, Eq)]
pub enum HostRequest {
    /// Nothing at all.
    Nothing,
    /// Give the window this title.
    SetTitle(String),
    /// Move the window to this position.
    SetPosition(Point),
    /// Give the window's content this size.
    SetInnerSize(Size),
    /// Show this cursor.
    SetCursor(MouseCursor),
    /// Switch the window into or out of fullscreen.
    SetFullscreen(bool),
    /// Send this answer on the notification's channel.
    Reply(bool),
    /// Show the text in a dialog, wait until the user dismisses it, then
    /// signal the notification's channel once; report a failed signal with
    /// `Browser::alert_reply_failed`, under the browser named here.
    Alert(Option<BrowserId>, String),
    /// Answer at once that no device was chosen.
    ReplyNoDevice,
    /// Answer at once that no file was chosen; report a failed answer with
    /// `Browser::select_files_reply_failed`, under the browser named here.
    ReplyNoFiles(Option<BrowserId>),
    /// Open a file chooser, wait for the user, then answer with the files
    /// chosen or with none; report a failed answer with
    /// `Browser::select_files_reply_failed`, under the browser named here.
    SelectFiles(Option<BrowserId>, FilePicker),
}

} // verus!
