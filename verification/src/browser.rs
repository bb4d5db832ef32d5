//! The coordinator of browsers ("tabs"): it keeps the session, routes the
//! engine's notifications and applies the default policy to the engine's
//! requests for permission.

use crate::embedder::{platform_cursor, EmbedderMsg, FilePicker, FilterPattern, HostRequest};
use crate::events::{BrowserId, ScrollLocation, TouchEventType, WindowEvent};
use crate::geometry::{Point, Scale, Vector, UNITS_PER_PIXEL};
use crate::keys::{Key, KeyModifiers, KeyState, Modifier};
use crate::window::{Window, WindowState, LINE_HEIGHT};
use vstd::prelude::*;

verus! {

/// How far the load of the current page has come.
#[derive(Clone, Copy, Debug, PartialEq, Eq, Structural)]
pub enum LoadingState {
    Connecting,
    Loading,
    Loaded,
}

/// The numerator of the ratio by which one zoom step enlarges.
pub const ZOOM_STEP_NUMER: u32 = 11;

/// The denominator of the ratio by which one zoom step enlarges.
pub const ZOOM_STEP_DENOM: u32 = 10;

/// The number of lines that stay in view when a page is scrolled by.
pub const PAGE_OVERLAP_LINES: i64 = 2;

/// The number of lines that one arrow key scrolls by.
pub const ARROW_STEP_LINES: i64 = 3;

/// What the coordinator holds, as mathematics.
pub struct BrowserModel {
    /// The browser that is shown. It is set by the first browser created
    /// and again whenever closing a browser leaves another on top.
    pub browser_id: Option<BrowserId>,
    /// The browsers in the order of their creation; the last is on top.
    pub browsers: Seq<BrowserId>,
    /// The title of the page, as last notified.
    pub title: Option<String>,
    /// The status text, as last notified.
    pub status: Option<String>,
    /// The address of the page's icon, as last notified.
    pub favicon: Option<String>,
    /// How far the load has come, as last notified.
    pub loading_state: Option<LoadingState>,
    /// The events produced and not yet handed out, oldest first.
    pub event_queue: Seq<WindowEvent>,
    /// Whether the engine has said that it shut down.
    pub shutdown_requested: bool,
    /// The modifier key of the platform's standard accelerators.
    pub accelerator: Modifier,
    /// Whether the process runs without a user to ask.
    pub headless: bool,
}

impl BrowserModel {
    /// While any browser is open, one is shown.
    pub open spec fn wf(self) -> bool {
        self.browsers.len() > 0 ==> self.browser_id is Some
    }
}

/// The title that the window shows for a page title: the page's own, or
/// `Untitled` where it has none or an empty one, followed by ` - Servo`.
pub open spec fn display_title(title: Option<String>) -> Seq<char> {
    (match title {
        Some(t) => if t@.len() > 0 {
            t@
        } else {
            "Untitled"@
        },
        None => "Untitled"@,
    }) + " - Servo"@
}

/// The ratio of one zoom step inwards.
pub open spec fn zoom_in() -> Scale {
    Scale { numer: ZOOM_STEP_NUMER, denom: ZOOM_STEP_DENOM }
}

/// The ratio of one zoom step outwards.
pub open spec fn zoom_out() -> Scale {
    Scale { numer: ZOOM_STEP_DENOM, denom: ZOOM_STEP_NUMER }
}

/// A scroll that a key asks for: it has no cursor position and counts as a
/// movement.
pub open spec fn key_scroll(location: ScrollLocation) -> WindowEvent {
    WindowEvent::Scroll(location, Point { x: 0, y: 0 }, TouchEventType::Move)
}

/// A scroll by `(x, y)` device pixels that a key asks for.
pub open spec fn key_scroll_by(x: int, y: int) -> WindowEvent {
    key_scroll(
        ScrollLocation::Delta(
            Vector { x: (x * UNITS_PER_PIXEL) as i64, y: (y * UNITS_PER_PIXEL) as i64 },
        ),
    )
}

/// The event that a key stands for once the page has left it unused, if it
/// stands for one.
///
/// Nothing fires unless the key comes up: neither a press nor a repeat
/// while the key is held stands for anything. With the accelerator held, `+`
/// zooms in and, with alt held as well, pinch-zooms in, shift being free
/// in both; `-` zooms out and, with alt, pinch-zooms out; `0` resets the
/// zoom; these three ask for exactly the modifiers named. Without any
/// modifier and without a character, page down and page up scroll by the
/// page height less the overlap, home and end go to the ends of the
/// document, and the arrows scroll by the arrow step towards their side.
pub open spec fn remapped(
    accelerator: Modifier,
    page_height: u32,
    ch: Option<char>,
    key: Key,
    state: KeyState,
    mods: KeyModifiers,
) -> Option<WindowEvent> {
    let accel = KeyModifiers::only(accelerator);
    let accel_alt = accel.set(Modifier::Alt, true);
    if state != KeyState::Released {
        None
    } else if ch == Some('+') {
        if mods.set(Modifier::Shift, false) == accel {
            Some(WindowEvent::Zoom(zoom_in()))
        } else if mods.set(Modifier::Shift, false) == accel_alt {
            Some(WindowEvent::PinchZoom(zoom_in()))
        } else {
            None
        }
    } else if ch == Some('-') {
        if mods == accel {
            Some(WindowEvent::Zoom(zoom_out()))
        } else if mods == accel_alt {
            Some(WindowEvent::PinchZoom(zoom_out()))
        } else {
            None
        }
    } else if ch == Some('0') {
        if mods == accel {
            Some(WindowEvent::ResetZoom)
        } else {
            None
        }
    } else if ch is None && mods == KeyModifiers::none() {
        match key {
            Key::PageDown => Some(key_scroll_by(0, PAGE_OVERLAP_LINES * LINE_HEIGHT - page_height)),
            Key::PageUp => Some(key_scroll_by(0, page_height - PAGE_OVERLAP_LINES * LINE_HEIGHT)),
            Key::Home => Some(key_scroll(ScrollLocation::Start)),
            Key::End => Some(key_scroll(ScrollLocation::End)),
            Key::Up => Some(key_scroll_by(0, ARROW_STEP_LINES * LINE_HEIGHT)),
            Key::Down => Some(key_scroll_by(0, -(ARROW_STEP_LINES * LINE_HEIGHT))),
            Key::Left => Some(key_scroll_by(ARROW_STEP_LINES * LINE_HEIGHT, 0)),
            Key::Right => Some(key_scroll_by(-(ARROW_STEP_LINES * LINE_HEIGHT), 0)),
            Key::Other(_) => None,
        }
    } else {
        None
    }
}

/// The stack of browsers with its top taken off; the empty stack stays
/// empty.
pub open spec fn popped(stack: Seq<BrowserId>) -> Seq<BrowserId> {
    if stack.len() > 0 {
        stack.drop_last()
    } else {
        stack
    }
}

/// The events that one notification adds to the queue.
///
/// A created browser is selected. Closing a browser selects the one that
/// comes to the top, or quits where none is left. A key event gives what
/// it is remapped to. No other notification gives an event.
pub open spec fn notification_events(
    b: BrowserModel,
    page_height: u32,
    msg: EmbedderMsg,
) -> Seq<WindowEvent> {
    match msg {
        EmbedderMsg::BrowserCreated(id) => seq![WindowEvent::SelectBrowser(id)],
        EmbedderMsg::CloseBrowser => if popped(b.browsers).len() > 0 {
            seq![WindowEvent::SelectBrowser(popped(b.browsers).last())]
        } else {
            seq![WindowEvent::Quit]
        },
        EmbedderMsg::KeyEvent(ch, key, state, mods) => match remapped(
            b.accelerator,
            page_height,
            ch,
            key,
            state,
            mods,
        ) {
            Some(event) => seq![event],
            None => Seq::empty(),
        },
        _ => Seq::empty(),
    }
}

/// The coordinator after one notification.
pub open spec fn model_after(b: BrowserModel, page_height: u32, msg: EmbedderMsg) -> BrowserModel {
    let queued = BrowserModel {
        event_queue: b.event_queue + notification_events(b, page_height, msg),
        ..b
    };
    match msg {
        EmbedderMsg::Status(status) => BrowserModel { status, ..queued },
        EmbedderMsg::ChangePageTitle(title) => BrowserModel { title, ..queued },
        EmbedderMsg::NewFavicon(url) => BrowserModel { favicon: Some(url), ..queued },
        EmbedderMsg::HeadParsed => BrowserModel {
            loading_state: Some(LoadingState::Loading),
            ..queued
        },
        EmbedderMsg::LoadStart => BrowserModel {
            loading_state: Some(LoadingState::Connecting),
            ..queued
        },
        EmbedderMsg::LoadComplete => BrowserModel {
            loading_state: Some(LoadingState::Loaded),
            ..queued
        },
        EmbedderMsg::BrowserCreated(id) => BrowserModel {
            browsers: b.browsers.push(id),
            browser_id: if b.browser_id is None {
                Some(id)
            } else {
                b.browser_id
            },
            ..queued
        },
        EmbedderMsg::CloseBrowser => BrowserModel {
            browsers: popped(b.browsers),
            browser_id: if popped(b.browsers).len() > 0 {
                Some(popped(b.browsers).last())
            } else {
                b.browser_id
            },
            ..queued
        },
        EmbedderMsg::Shutdown => BrowserModel { shutdown_requested: true, ..queued },
        _ => queued,
    }
}

/// The fullscreen state that the window records after one notification.
pub open spec fn fullscreen_after(fullscreen: bool, msg: EmbedderMsg) -> bool {
    match msg {
        EmbedderMsg::SetFullscreenState(state) => state,
        _ => fullscreen,
    }
}

/// The title of the file chooser.
pub open spec fn picker_name(multiple: bool) -> Seq<char> {
    if multiple {
        "Pick files"@
    } else {
        "Pick a file"@
    }
}

/// The glob that lets files of one extension through.
pub open spec fn filter_glob(pattern: FilterPattern) -> Seq<char> {
    "*."@ + pattern.0@
}

/// Whether `picker` is the chooser for the given extensions: it has the
/// title for one file or for several, and one glob per extension, in order.
pub open spec fn picks(picker: FilePicker, patterns: Seq<FilterPattern>, multiple: bool) -> bool {
    &&& picker.multiple == multiple
    &&& picker.name@ == picker_name(multiple)
    &&& picker.filters@.len() == patterns.len()
    &&& forall|i: int|
        0 <= i < patterns.len() ==> (#[trigger] picker.filters@[i])@ == filter_glob(patterns[i])
}

/// Whether `request` is what the host must do for `msg`, which concerns
/// `browser_id`, the window recording `fullscreen` at that time.
///
/// A new title is shown in its display form. Moves, resizes and cursors
/// are passed on, the cursor as the platform's. Fullscreen is switched only
/// where the wanted state differs from the recorded one. An alert is shown.
/// The three requests for permission are answered with no, whatever they
/// carry, and the request for a bluetooth device with none. A request for
/// files is answered with none at once when the process is headless, else
/// with what the user picks in a chooser. An alert and a request for files
/// name the browser they concern, under which a failed answer is reported.
/// Every other notification asks nothing of the host.
pub open spec fn answers(
    b: BrowserModel,
    fullscreen: bool,
    browser_id: Option<BrowserId>,
    msg: EmbedderMsg,
    request: HostRequest,
) -> bool {
    match msg {
        EmbedderMsg::ChangePageTitle(title) => request matches HostRequest::SetTitle(shown)
            && shown@ == display_title(title),
        EmbedderMsg::MoveTo(point) => request == HostRequest::SetPosition(point),
        EmbedderMsg::ResizeTo(size) => request == HostRequest::SetInnerSize(size),
        EmbedderMsg::Alert(message) => request == HostRequest::Alert(browser_id, message),
        EmbedderMsg::AllowUnload => request == HostRequest::Reply(false),
        EmbedderMsg::AllowNavigation(_) => request == HostRequest::Reply(false),
        EmbedderMsg::AllowOpeningBrowser => request == HostRequest::Reply(false),
        EmbedderMsg::GetSelectedBluetoothDevice(_) => request == HostRequest::ReplyNoDevice,
        EmbedderMsg::SetCursor(cursor) => request == HostRequest::SetCursor(
            platform_cursor(cursor),
        ),
        EmbedderMsg::SetFullscreenState(state) => request == if fullscreen != state {
            HostRequest::SetFullscreen(state)
        } else {
            HostRequest::Nothing
        },
        EmbedderMsg::SelectFiles(patterns, multiple) => if b.headless {
            request == HostRequest::ReplyNoFiles(browser_id)
        } else {
            request matches HostRequest::SelectFiles(id, picker) && id == browser_id && picks(
                picker,
                patterns@,
                multiple,
            )
        },
        _ => request == HostRequest::Nothing,
    }
}

/// The coordinator after a run of notifications.
pub open spec fn model_after_all(
    b: BrowserModel,
    page_height: u32,
    events: Seq<(Option<BrowserId>, EmbedderMsg)>,
) -> BrowserModel
    decreases events.len(),
{
    if events.len() == 0 {
        b
    } else {
        model_after(
            model_after_all(b, page_height, events.drop_last()),
            page_height,
            events.last().1,
        )
    }
}

/// The fullscreen state that the window records after a run of
/// notifications.
pub open spec fn fullscreen_after_all(
    fullscreen: bool,
    events: Seq<(Option<BrowserId>, EmbedderMsg)>,
) -> bool
    decreases events.len(),
{
    if events.len() == 0 {
        fullscreen
    } else {
        fullscreen_after(fullscreen_after_all(fullscreen, events.drop_last()), events.last().1)
    }
}

/// Works out what a key stands for once the page has left it unused.
pub fn remap_key(
    accelerator: Modifier,
    page_height: u32,
    ch: Option<char>,
    key: Key,
    state: KeyState,
    mods: KeyModifiers,
) -> (event: Option<WindowEvent>)
    ensures
        event == remapped(accelerator, page_height, ch, key, state, mods),
{
    match state {
        KeyState::Released => {},
        _ => {
            return None;
        },
    }
    let accel = KeyModifiers::single(accelerator);
    let accel_alt = accel.with(Modifier::Alt);
    let origin = Point { x: 0, y: 0 };
    let page: i64 = page_height as i64 * UNITS_PER_PIXEL;
    let overlap: i64 = PAGE_OVERLAP_LINES * LINE_HEIGHT * UNITS_PER_PIXEL;
    let step: i64 = ARROW_STEP_LINES * LINE_HEIGHT * UNITS_PER_PIXEL;
    match ch {
        Some(c) => {
            if c == '+' {
                let unshifted = mods.without(Modifier::Shift);
                if unshifted.same(&accel) {
                    Some(WindowEvent::Zoom(Scale { numer: ZOOM_STEP_NUMER, denom: ZOOM_STEP_DENOM }))
                } else if unshifted.same(&accel_alt) {
                    Some(
                        WindowEvent::PinchZoom(
                            Scale { numer: ZOOM_STEP_NUMER, denom: ZOOM_STEP_DENOM },
                        ),
                    )
                } else {
                    None
                }
            } else if c == '-' {
                if mods.same(&accel) {
                    Some(WindowEvent::Zoom(Scale { numer: ZOOM_STEP_DENOM, denom: ZOOM_STEP_NUMER }))
                } else if mods.same(&accel_alt) {
                    Some(
                        WindowEvent::PinchZoom(
                            Scale { numer: ZOOM_STEP_DENOM, denom: ZOOM_STEP_NUMER },
                        ),
                    )
                } else {
                    None
                }
            } else if c == '0' {
                if mods.same(&accel) {
                    Some(WindowEvent::ResetZoom)
                } else {
                    None
                }
            } else {
                None
            }
        },
        None => {
            if !mods.same(&KeyModifiers::empty()) {
                return None;
            }
            let location = match key {
                Key::PageDown => ScrollLocation::Delta(Vector { x: 0, y: overlap - page }),
                Key::PageUp => ScrollLocation::Delta(Vector { x: 0, y: page - overlap }),
                Key::Home => ScrollLocation::Start,
                Key::End => ScrollLocation::End,
                Key::Up => ScrollLocation::Delta(Vector { x: 0, y: step }),
                Key::Down => ScrollLocation::Delta(Vector { x: 0, y: -step }),
                Key::Left => ScrollLocation::Delta(Vector { x: step, y: 0 }),
                Key::Right => ScrollLocation::Delta(Vector { x: -step, y: 0 }),
                Key::Other(_) => {
                    return None;
                },
            };
            Some(WindowEvent::Scroll(location, origin, TouchEventType::Move))
        },
    }
}

/// Builds the title that the window shows for a page title.
pub fn window_title(title: &Option<String>) -> (shown: String)
    ensures
        shown@ == display_title(*title),
{
    let mut shown = match title {
        Some(t) => if t.as_str().is_empty() {
            String::from_str("Untitled")
        } else {
            t.clone()
        },
        None => String::from_str("Untitled"),
    };
    shown.append(" - Servo");
    shown
}

/// Builds the file chooser for the given extensions.
pub fn file_picker(patterns: &Vec<FilterPattern>, multiple: bool) -> (picker: FilePicker)
    ensures
        picks(picker, patterns@, multiple),
{
    let name = if multiple {
        String::from_str("Pick files")
    } else {
        String::from_str("Pick a file")
    };
    let mut filters: Vec<String> = Vec::new();
    let mut i: usize = 0;
    while i < patterns.len()
        invariant
            i <= patterns.len(),
            filters@.len() == i,
            forall|j: int| 0 <= j < i ==> (#[trigger] filters@[j])@ == filter_glob(patterns@[j]),
        decreases patterns.len() - i,
    {
        let glob = String::from_str("*.").concat(patterns[i].0.as_str());
        filters.push(glob);
        i += 1;
    }
    FilePicker { name, filters, multiple }
}

/// Turns the choice made in a chooser for one file into the answer to the
/// engine: the one file as a list, or none.
pub fn single_file_reply(file: Option<String>) -> (reply: Option<Vec<String>>)
    ensures
        file is None ==> reply is None,
        file matches Some(f) ==> reply matches Some(files) && files@ == seq![f],
{
    match file {
        Some(f) => {
            let mut files: Vec<String> = Vec::new();
            files.push(f);
            Some(files)
        },
        None => None,
    }
}

/// The coordinator of browsers.
pub struct Browser {
    browser_id: Option<BrowserId>,
    browsers: Vec<BrowserId>,
    title: Option<String>,
    status: Option<String>,
    favicon: Option<String>,
    loading_state: Option<LoadingState>,
    event_queue: Vec<WindowEvent>,
    shutdown_requested: bool,
    accelerator: Modifier,
    headless: bool,
}

impl View for Browser {
    type V = BrowserModel;

    closed spec fn view(&self) -> BrowserModel {
        BrowserModel {
            browser_id: self.browser_id,
            browsers: self.browsers@,
            title: self.title,
            status: self.status,
            favicon: self.favicon,
            loading_state: self.loading_state,
            event_queue: self.event_queue@,
            shutdown_requested: self.shutdown_requested,
            accelerator: self.accelerator,
            headless: self.headless,
        }
    }
}

impl Browser {
    /// The coordinator before any notification: no browser, nothing known
    /// of the page, nothing queued.
    pub open spec fn initial(accelerator: Modifier, headless: bool) -> BrowserModel {
        BrowserModel {
            browser_id: None,
            browsers: Seq::empty(),
            title: None,
            status: None,
            favicon: None,
            loading_state: None,
            event_queue: Seq::empty(),
            shutdown_requested: false,
            accelerator,
            headless,
        }
    }

    /// Creates the coordinator. `accelerator` is the modifier of the
    /// platform's standard shortcuts; `headless` says that no user can be
    /// asked.
    pub fn new(accelerator: Modifier, headless: bool) -> (browser: Browser)
        ensures
            browser@ == Self::initial(accelerator, headless),
            browser@.wf(),
    {
        Browser {
            browser_id: None,
            browsers: Vec::new(),
            title: None,
            status: None,
            favicon: None,
            loading_state: None,
            event_queue: Vec::new(),
            shutdown_requested: false,
            accelerator,
            headless,
        }
    }

    /// Hands out the queued events, oldest first, and leaves the queue
    /// empty.
    pub fn get_events(&mut self) -> (events: Vec<WindowEvent>)
        ensures
            events@ == old(self)@.event_queue,
            final(self)@ == (BrowserModel { event_queue: Seq::empty(), ..old(self)@ }),
    {
        let mut events: Vec<WindowEvent> = Vec::new();
        std::mem::swap(&mut self.event_queue, &mut events);
        events
    }

    /// Takes the events of the window into the queue, in order and
    /// unchanged.
    pub fn handle_window_events(&mut self, events: Vec<WindowEvent>)
        ensures
            final(self)@ == (BrowserModel {
                event_queue: old(self)@.event_queue + events@,
                ..old(self)@
            }),
    {
        let mut events = events;
        self.event_queue.append(&mut events);
    }

    /// Tells whether the engine has said that it shut down.
    pub fn shutdown_requested(&self) -> (requested: bool)
        ensures
            requested == self@.shutdown_requested,
    {
        self.shutdown_requested
    }

    /// The browser that is shown, if any is.
    pub fn browser_id(&self) -> (id: Option<BrowserId>)
        ensures
            id == self@.browser_id,
    {
        self.browser_id
    }

    /// The number of open browsers.
    pub fn browser_count(&self) -> (count: usize)
        ensures
            count == self@.browsers.len(),
    {
        self.browsers.len()
    }

    /// The title of the page, as last notified.
    pub fn title(&self) -> (title: Option<&String>)
        ensures
            self@.title matches Some(text) ==> title == Some(&text),
            self@.title is None ==> title is None,
    {
        self.title.as_ref()
    }

    /// The status text, as last notified.
    pub fn status(&self) -> (status: Option<&String>)
        ensures
            self@.status matches Some(text) ==> status == Some(&text),
            self@.status is None ==> status is None,
    {
        self.status.as_ref()
    }

    /// The address of the page's icon, as last notified.
    pub fn favicon(&self) -> (favicon: Option<&String>)
        ensures
            self@.favicon matches Some(text) ==> favicon == Some(&text),
            self@.favicon is None ==> favicon is None,
    {
        self.favicon.as_ref()
    }

    /// How far the load of the page has come, as far as is known.
    pub fn loading_state(&self) -> (state: Option<LoadingState>)
        ensures
            state == self@.loading_state,
    {
        self.loading_state
    }

    /// Handles a key event that the page did not consume: queues the event
    /// it is remapped to, if any.
    fn handle_key_from_servo(
        &mut self,
        page_height: u32,
        ch: Option<char>,
        key: Key,
        state: KeyState,
        mods: KeyModifiers,
    )
        ensures
            final(self)@ == model_after(
                old(self)@,
                page_height,
                EmbedderMsg::KeyEvent(ch, key, state, mods),
            ),
    {
        match remap_key(self.accelerator, page_height, ch, key, state, mods) {
            Some(event) => {
                self.event_queue.push(event);
                assert(self@.event_queue == old(self)@.event_queue + seq![event]);
            },
            None => {
                assert(self@.event_queue + Seq::<WindowEvent>::empty() == self@.event_queue);
            },
        }
    }

    /// Handles one notification of the engine and says what the host has to
    /// do for it.
    pub fn handle_servo_event(
        &mut self,
        window: &mut Window,
        browser_id: Option<BrowserId>,
        msg: EmbedderMsg,
    ) -> (request: HostRequest)
        ensures
            final(self)@ == model_after(old(self)@, old(window).state().inner_size.height, msg),
            old(self)@.wf() ==> final(self)@.wf(),
            answers(old(self)@, old(window).state().fullscreen, browser_id, msg, request),
            final(window).state() == (WindowState {
                fullscreen: fullscreen_after(old(window).state().fullscreen, msg),
                ..old(window).state()
            }),
            final(window).queued() == old(window).queued(),
    {
        proof {
            assert(self@.event_queue + Seq::<WindowEvent>::empty() == self@.event_queue);
        }
        match msg {
            EmbedderMsg::Status(status) => {
                self.status = status;
                HostRequest::Nothing
            },
            EmbedderMsg::ChangePageTitle(title) => {
                let shown = window_title(&title);
                self.title = title;
                HostRequest::SetTitle(shown)
            },
            EmbedderMsg::MoveTo(point) => HostRequest::SetPosition(point),
            EmbedderMsg::ResizeTo(size) => HostRequest::SetInnerSize(size),
            EmbedderMsg::Alert(message) => HostRequest::Alert(browser_id, message),
            EmbedderMsg::AllowUnload => HostRequest::Reply(false),
            EmbedderMsg::AllowNavigation(_url) => HostRequest::Reply(false),
            EmbedderMsg::AllowOpeningBrowser => HostRequest::Reply(false),
            EmbedderMsg::BrowserCreated(new_browser_id) => {
                if self.browser_id.is_none() {
                    self.browser_id = Some(new_browser_id);
                }
                self.browsers.push(new_browser_id);
                let select = WindowEvent::SelectBrowser(new_browser_id);
                self.event_queue.push(select);
                assert(self@.event_queue == old(self)@.event_queue + seq![select]);
                HostRequest::Nothing
            },
            EmbedderMsg::KeyEvent(ch, key, state, modified) => {
                let page_height: u32 = window.page_height();
                self.handle_key_from_servo(page_height, ch, key, state, modified);
                HostRequest::Nothing
            },
            EmbedderMsg::SetCursor(cursor) => HostRequest::SetCursor(window.set_cursor(cursor)),
            EmbedderMsg::NewFavicon(url) => {
                self.favicon = Some(url);
                HostRequest::Nothing
            },
            EmbedderMsg::HeadParsed => {
                self.loading_state = Some(LoadingState::Loading);
                HostRequest::Nothing
            },
            EmbedderMsg::HistoryChanged(_urls, _current) => HostRequest::Nothing,
            EmbedderMsg::SetFullscreenState(state) => {
                if window.set_fullscreen(state) {
                    HostRequest::SetFullscreen(state)
                } else {
                    HostRequest::Nothing
                }
            },
            EmbedderMsg::LoadStart => {
                self.loading_state = Some(LoadingState::Connecting);
                HostRequest::Nothing
            },
            EmbedderMsg::LoadComplete => {
                self.loading_state = Some(LoadingState::Loaded);
                HostRequest::Nothing
            },
            EmbedderMsg::CloseBrowser => {
                let _ = self.browsers.pop();
                let event = if self.browsers.len() > 0 {
                    let prev_browser_id = self.browsers[self.browsers.len() - 1];
                    self.browser_id = Some(prev_browser_id);
                    WindowEvent::SelectBrowser(prev_browser_id)
                } else {
                    WindowEvent::Quit
                };
                self.event_queue.push(event);
                assert(self@.event_queue == old(self)@.event_queue + seq![event]);
                HostRequest::Nothing
            },
            EmbedderMsg::Shutdown => {
                self.shutdown_requested = true;
                HostRequest::Nothing
            },
            EmbedderMsg::Panic(_reason, _backtrace) => HostRequest::Nothing,
            EmbedderMsg::GetSelectedBluetoothDevice(_devices) => HostRequest::ReplyNoDevice,
            EmbedderMsg::SelectFiles(patterns, multiple_files) => {
                if self.headless {
                    HostRequest::ReplyNoFiles(browser_id)
                } else {
                    HostRequest::SelectFiles(browser_id, file_picker(&patterns, multiple_files))
                }
            },
            EmbedderMsg::ShowIME => HostRequest::Nothing,
            EmbedderMsg::HideIME => HostRequest::Nothing,
        }
    }

    /// Handles a batch of notifications in order and says, for each, what
    /// the host has to do for it: `requests[i]` answers `events[i]`.
    pub fn handle_servo_events(
        &mut self,
        window: &mut Window,
        events: Vec<(Option<BrowserId>, EmbedderMsg)>,
    ) -> (requests: Vec<HostRequest>)
        ensures
            final(self)@ == model_after_all(
                old(self)@,
                old(window).state().inner_size.height,
                events@,
            ),
            old(self)@.wf() ==> final(self)@.wf(),
            requests@.len() == events@.len(),
            forall|i: int|
                0 <= i < events@.len() ==> answers(
                    model_after_all(
                        old(self)@,
                        old(window).state().inner_size.height,
                        events@.take(i),
                    ),
                    fullscreen_after_all(old(window).state().fullscreen, events@.take(i)),
                    events@[i].0,
                    events@[i].1,
                    #[trigger] requests@[i],
                ),
            final(window).state() == (WindowState {
                fullscreen: fullscreen_after_all(old(window).state().fullscreen, events@),
                ..old(window).state()
            }),
            final(window).queued() == old(window).queued(),
    {
        let ghost all = events@;
        let ghost first = self@;
        let ghost before = window.state();
        let ghost waiting = window.queued();
        let ghost height = window.state().inner_size.height;
        let mut requests: Vec<HostRequest> = Vec::new();
        proof {
            assert(all.take(0) == Seq::<(Option<BrowserId>, EmbedderMsg)>::empty());
        }
        for pair in it: events
            invariant
                it.seq() == all,
                self@ == model_after_all(first, height, all.take(it.index() as int)),
                window.state() == (WindowState {
                    fullscreen: fullscreen_after_all(
                        before.fullscreen,
                        all.take(it.index() as int),
                    ),
                    ..before
                }),
                window.queued() == waiting,
                height == before.inner_size.height,
                requests@.len() == it.index(),
                forall|i: int|
                    0 <= i < it.index() ==> answers(
                        model_after_all(first, height, all.take(i)),
                        fullscreen_after_all(before.fullscreen, all.take(i)),
                        all[i].0,
                        all[i].1,
                        #[trigger] requests@[i],
                    ),
        {
            let ghost done = it.index() as int;
            let (browser_id, msg) = pair;
            let request = self.handle_servo_event(window, browser_id, msg);
            requests.push(request);
            proof {
                assert(all.take(done + 1).drop_last() == all.take(done));
                assert(all.take(done + 1).last() == all[done]);
            }
        }
        proof {
            assert(all.take(all.len() as int) == all);
            if first.wf() {
                law_session_stays_well_formed_all(first, height, all);
            }
        }
        requests
    }

    /// Queues the report that the answer to an alert could not be
    /// delivered. `error` is the reason in words.
    pub fn alert_reply_failed(&mut self, browser_id: Option<BrowserId>, error: &str)
        ensures
            final(self)@.event_queue.len() == old(self)@.event_queue.len() + 1,
            final(self)@.event_queue.drop_last() == old(self)@.event_queue,
            final(self)@.event_queue.last() matches WindowEvent::SendError(id, reason) && id
                == browser_id && reason@ == "Failed to send Alert response: "@ + error@,
            final(self)@ == (BrowserModel {
                event_queue: final(self)@.event_queue,
                ..old(self)@
            }),
    {
        let reason = String::from_str("Failed to send Alert response: ").concat(error);
        self.event_queue.push(WindowEvent::SendError(browser_id, reason));
    }

    /// Queues the report that the answer to a request for files could not
    /// be delivered. `browser_id` is the browser that the request
    /// concerned, if it is known; `error` is the reason in words.
    pub fn select_files_reply_failed(&mut self, browser_id: Option<BrowserId>, error: &str)
        ensures
            final(self)@.event_queue.len() == old(self)@.event_queue.len() + 1,
            final(self)@.event_queue.drop_last() == old(self)@.event_queue,
            final(self)@.event_queue.last() matches WindowEvent::SendError(id, reason) && id
                == browser_id && reason@ == "Failed to send SelectFiles response: "@ + error@,
            final(self)@ == (BrowserModel {
                event_queue: final(self)@.event_queue,
                ..old(self)@
            }),
    {
        let reason = String::from_str("Failed to send SelectFiles response: ").concat(error);
        self.event_queue.push(WindowEvent::SendError(browser_id, reason));
    }
}

/// While any browser is open, one is shown: no notification breaks this.
pub proof fn law_session_stays_well_formed(b: BrowserModel, page_height: u32, msg: EmbedderMsg)
    requires
        b.wf(),
    ensures
        model_after(b, page_height, msg).wf(),
{
}

/// While any browser is open, one is shown: no run of notifications breaks
/// this.
pub proof fn law_session_stays_well_formed_all(
    b: BrowserModel,
    page_height: u32,
    events: Seq<(Option<BrowserId>, EmbedderMsg)>,
)
    requires
        b.wf(),
    ensures
        model_after_all(b, page_height, events).wf(),
    decreases events.len(),
{
    if events.len() > 0 {
        law_session_stays_well_formed_all(b, page_height, events.drop_last());
        law_session_stays_well_formed(
            model_after_all(b, page_height, events.drop_last()),
            page_height,
            events.last().1,
        );
    }
}

/// Closing a browser takes the top off the stack. Where a browser is left,
/// the one on top becomes the one shown and is selected, and nothing quits;
/// where none is left, the one event queued is the request to quit.
pub proof fn law_close_browser(b: BrowserModel, page_height: u32)
    ensures
        b.browsers.len() >= 2 ==> ({
            let after = model_after(b, page_height, EmbedderMsg::CloseBrowser);
            let remaining = b.browsers[b.browsers.len() - 2];
            &&& after.browsers == b.browsers.drop_last()
            &&& after.browser_id == Some(remaining)
            &&& after.event_queue == b.event_queue.push(WindowEvent::SelectBrowser(remaining))
        }),
        b.browsers.len() <= 1 ==> ({
            let after = model_after(b, page_height, EmbedderMsg::CloseBrowser);
            &&& after.browsers.len() == 0
            &&& after.browser_id == b.browser_id
            &&& after.event_queue == b.event_queue.push(WindowEvent::Quit)
        }),
{
}

/// Every request for permission is answered with a refusal, whatever it
/// carries and whatever the coordinator holds, and leaves the coordinator
/// as it was: the three yes-or-no questions with no, the choice of a
/// bluetooth device with none, and the choice of files, in a headless
/// process, with none.
pub proof fn law_permissions_are_denied(
    b: BrowserModel,
    fullscreen: bool,
    page_height: u32,
    browser_id: Option<BrowserId>,
    msg: EmbedderMsg,
    request: HostRequest,
)
    requires
        answers(b, fullscreen, browser_id, msg, request),
    ensures
        msg is AllowUnload || msg is AllowNavigation || msg is AllowOpeningBrowser ==> request
            == HostRequest::Reply(false),
        msg is GetSelectedBluetoothDevice ==> request == HostRequest::ReplyNoDevice,
        msg is SelectFiles && b.headless ==> request == HostRequest::ReplyNoFiles(browser_id),
        msg is AllowUnload || msg is AllowNavigation || msg is AllowOpeningBrowser
            || msg is GetSelectedBluetoothDevice || msg is SelectFiles ==> model_after(
            b,
            page_height,
            msg,
        ) == b,
{
    assert(b.event_queue + Seq::<WindowEvent>::empty() == b.event_queue);
}

/// Once the engine has said that it shut down, the flag stays set, and the
/// notifications that follow are handled all the same.
pub proof fn law_shutdown_is_sticky(b: BrowserModel, page_height: u32, msg: EmbedderMsg)
    ensures
        model_after(b, page_height, msg).shutdown_requested == (b.shutdown_requested
            || msg is Shutdown),
{
}

/// A key is remapped only when it comes up: a press and a repeat give
/// nothing, whatever the key and the modifiers. A key that is remapped
/// gives exactly one event.
pub proof fn law_remap_waits_for_release(
    b: BrowserModel,
    page_height: u32,
    ch: Option<char>,
    key: Key,
    mods: KeyModifiers,
    state: KeyState,
)
    ensures
        state != KeyState::Released ==> notification_events(
            b,
            page_height,
            EmbedderMsg::KeyEvent(ch, key, state, mods),
        ) == Seq::<WindowEvent>::empty(),
        notification_events(b, page_height, EmbedderMsg::KeyEvent(ch, key, state, mods)).len()
            <= 1,
{
}

} // verus!
