//! The per-window translator from platform events to engine events.

use crate::embedder::{platform_cursor, CursorKind, MouseCursor};
use crate::events::{
    MouseButton, MouseWindowEvent, ScrollLocation, TouchEventType, TouchId, WindowEvent,
};
use crate::geometry::{is_click, within_click_distance, Point, Scale, Size, Vector};
use crate::keys::{Key, KeyModifiers, KeyState, Modifier};
use crate::platform::{
    ElementState, ModifiersState, MouseScrollDelta, PlatformButton, PlatformEvent, TouchPhase,
};
use vstd::prelude::*;

verus! {

/// The height of one line of text in device pixels: the measure of wheel
/// movements that come in lines and of the scrolling that keys ask for.
pub const LINE_HEIGHT: i64 = 38;

/// Whether the engine asked for continuous repainting.
#[derive(Clone, Copy, Debug, PartialEq, Eq, Structural)]
pub enum AnimationState {
    Idle,
    Animating,
}

/// Everything the translator remembers between two events, the queue of
/// produced events apart.
#[derive(Clone, Copy, Debug, PartialEq, Eq, Structural)]
pub struct WindowState {
    /// The size of the window's content, in device pixels, as last known.
    pub inner_size: Size,
    /// The button that last went down, if one ever did.
    pub mouse_down_button: Option<PlatformButton>,
    /// Where the cursor was when that button went down.
    pub mouse_down_point: Point,
    /// Where the cursor is.
    pub mouse_pos: Point,
    /// The modifier keys that are held.
    pub key_modifiers: KeyModifiers,
    /// A printable key that went down and still waits for its character.
    pub last_pressed_key: Option<Key>,
    /// Whether the engine animates.
    pub animation_state: AnimationState,
    /// Whether the window covers the screen.
    pub fullscreen: bool,
    /// Whether the application is suspended.
    pub suspended: bool,
    /// Device pixels per device-independent pixel.
    pub hidpi_factor: Scale,
}

/// The absolute value of an integer.
pub open spec fn magnitude(a: int) -> int {
    if a < 0 {
        -a
    } else {
        a
    }
}

/// A displacement locked to its dominant axis: the component of smaller
/// magnitude becomes zero, and on a tie the vertical one stays.
pub open spec fn snapped(v: Vector) -> Vector {
    if magnitude(v.y as int) >= magnitude(v.x as int) {
        Vector { x: 0, y: v.y }
    } else {
        Vector { x: v.x, y: 0 }
    }
}

/// What a wheel movement amounts to in scroll units. A line counts
/// `LINE_HEIGHT` pixels along the vertical axis; along the horizontal
/// axis it counts as one pixel.
pub open spec fn resolved(delta: MouseScrollDelta) -> Vector {
    match delta {
        MouseScrollDelta::LineDelta(dx, dy) => Vector { x: dx as i64, y: (dy * LINE_HEIGHT) as i64 },
        MouseScrollDelta::PixelDelta(x, y) => Vector { x: x as i64, y: y as i64 },
    }
}

/// The engine's name for a platform phase.
pub open spec fn touch_event_type(phase: TouchPhase) -> TouchEventType {
    match phase {
        TouchPhase::Started => TouchEventType::Down,
        TouchPhase::Moved => TouchEventType::Move,
        TouchPhase::Ended => TouchEventType::Up,
        TouchPhase::Cancelled => TouchEventType::Cancel,
    }
}

/// The modifier set that equals what the platform reports.
pub open spec fn tracked_modifiers(mods: ModifiersState) -> KeyModifiers {
    KeyModifiers { control: mods.ctrl, shift: mods.shift, alt: mods.alt, logo: mods.logo }
}

/// The engine's name for a key transition.
pub open spec fn key_state(state: ElementState) -> KeyState {
    match state {
        ElementState::Pressed => KeyState::Pressed,
        ElementState::Released => KeyState::Released,
    }
}

/// Whether a key event is held back until its character arrives.
pub open spec fn defers(state: ElementState, key: Option<Key>, printable: bool) -> bool {
    key is Some && state == ElementState::Pressed && printable
}

/// The engine's name for a platform button that the translator handles.
/// It handles the left and the right button; every other button is
/// ignored.
pub open spec fn engine_button(button: PlatformButton) -> Option<MouseButton> {
    match button {
        PlatformButton::Left => Some(MouseButton::Left),
        PlatformButton::Right => Some(MouseButton::Right),
        _ => None,
    }
}

/// The events that a button transition at `coords` produces; each carries
/// the button that made the transition.
///
/// A press gives a mouse-down. A release gives a mouse-up, followed by a
/// click exactly when the same button was the last to go down and the
/// release lies within click distance of where it went down. A button that
/// is not handled gives nothing.
pub open spec fn mouse_events(
    s: WindowState,
    button: PlatformButton,
    action: ElementState,
    coords: Point,
) -> Seq<WindowEvent> {
    match engine_button(button) {
        None => Seq::empty(),
        Some(named) => match action {
            ElementState::Pressed => seq![
                WindowEvent::MouseWindowEventClass(MouseWindowEvent::MouseDown(named, coords)),
            ],
            ElementState::Released => {
                let up = WindowEvent::MouseWindowEventClass(
                    MouseWindowEvent::MouseUp(named, coords),
                );
                if s.mouse_down_button == Some(button) && within_click_distance(
                    s.mouse_down_point,
                    coords,
                    s.hidpi_factor,
                ) {
                    seq![
                        up,
                        WindowEvent::MouseWindowEventClass(MouseWindowEvent::Click(named, coords)),
                    ]
                } else {
                    seq![up]
                }
            },
        },
    }
}

/// The state after a button transition: a press of a handled button
/// records the button and the anchor point; a release, and any transition
/// of another button, changes nothing.
pub open spec fn after_mouse(
    s: WindowState,
    button: PlatformButton,
    action: ElementState,
    coords: Point,
) -> WindowState {
    if engine_button(button) is Some && action == ElementState::Pressed {
        WindowState { mouse_down_button: Some(button), mouse_down_point: coords, ..s }
    } else {
        s
    }
}

/// The events that a key transition produces: none while the key is
/// deferred or has no logical key, else one key event without a character,
/// under the modifiers that the platform reports with it.
pub open spec fn keyboard_events(
    state: ElementState,
    key: Option<Key>,
    printable: bool,
    mods: ModifiersState,
) -> Seq<WindowEvent> {
    match key {
        Some(k) if !defers(state, key, printable) => seq![
            WindowEvent::KeyEvent(None, k, key_state(state), tracked_modifiers(mods)),
        ],
        _ => Seq::empty(),
    }
}

/// The state after a key transition. The modifiers follow the platform on
/// every key event. A key that was deferred before is dropped by every key
/// event; the key of this event takes its place if it is deferred itself.
pub open spec fn after_keyboard(
    s: WindowState,
    state: ElementState,
    key: Option<Key>,
    printable: bool,
    mods: ModifiersState,
) -> WindowState {
    WindowState {
        key_modifiers: tracked_modifiers(mods),
        last_pressed_key: if defers(state, key, printable) {
            key
        } else {
            None
        },
        ..s
    }
}

/// The logical key of a composed key press: the key that the character
/// stands for, or the deferred key where the character stands for none.
pub open spec fn composed_key(deferred: Key, key: Option<Key>) -> Key {
    match key {
        Some(k) => k,
        None => deferred,
    }
}

/// The events that a produced character gives: none unless a key is
/// deferred; else one key press that carries both the character and a
/// logical key, the one the character stands for or else the deferred one.
pub open spec fn character_events(s: WindowState, ch: char, key: Option<Key>) -> Seq<WindowEvent> {
    match s.last_pressed_key {
        None => Seq::empty(),
        Some(last) => seq![
            WindowEvent::KeyEvent(
                Some(ch),
                composed_key(last, key),
                KeyState::Pressed,
                s.key_modifiers,
            ),
        ],
    }
}

/// The events that one platform event produces in state `s`.
pub open spec fn events_for(s: WindowState, event: PlatformEvent) -> Seq<WindowEvent> {
    match event {
        PlatformEvent::ReceivedCharacter { ch, key } => character_events(s, ch, key),
        PlatformEvent::KeyboardInput { state, key, printable, modifiers } => keyboard_events(
            state,
            key,
            printable,
            modifiers,
        ),
        PlatformEvent::MouseInput { state, button } => mouse_events(s, button, state, s.mouse_pos),
        PlatformEvent::CursorMoved { position } => seq![
            WindowEvent::MouseWindowMoveEventClass(position),
        ],
        PlatformEvent::MouseWheel { delta, phase } => seq![
            WindowEvent::Scroll(
                ScrollLocation::Delta(snapped(resolved(delta))),
                s.mouse_pos,
                touch_event_type(phase),
            ),
        ],
        PlatformEvent::Touch { phase, id, location } => seq![
            WindowEvent::Touch(touch_event_type(phase), TouchId(id), location),
        ],
        PlatformEvent::Refresh => seq![WindowEvent::Refresh],
        PlatformEvent::CloseRequested => seq![WindowEvent::Quit],
        PlatformEvent::Resized { size } => if s.inner_size != size {
            seq![WindowEvent::Resize]
        } else {
            Seq::empty()
        },
        PlatformEvent::Suspended(suspended) => if suspended {
            Seq::empty()
        } else {
            seq![WindowEvent::Idle]
        },
        PlatformEvent::Awakened => seq![WindowEvent::Idle],
        PlatformEvent::Other => Seq::empty(),
    }
}

/// The state in which one platform event leaves the translator.
pub open spec fn state_after(s: WindowState, event: PlatformEvent) -> WindowState {
    match event {
        PlatformEvent::ReceivedCharacter { ch, key } => WindowState { last_pressed_key: None, ..s },
        PlatformEvent::KeyboardInput { state, key, printable, modifiers } => after_keyboard(
            s,
            state,
            key,
            printable,
            modifiers,
        ),
        PlatformEvent::MouseInput { state, button } => after_mouse(s, button, state, s.mouse_pos),
        PlatformEvent::CursorMoved { position } => WindowState { mouse_pos: position, ..s },
        PlatformEvent::Resized { size } => WindowState { inner_size: size, ..s },
        PlatformEvent::Suspended(suspended) => WindowState { suspended, ..s },
        _ => s,
    }
}

/// The events that a run of platform events produces, in order.
pub open spec fn events_for_all(s: WindowState, events: Seq<PlatformEvent>) -> Seq<WindowEvent>
    decreases events.len(),
{
    if events.len() == 0 {
        Seq::empty()
    } else {
        events_for(s, events[0]) + events_for_all(state_after(s, events[0]), events.drop_first())
    }
}

/// The absolute value of a 64-bit integer, which always fits 64 bits
/// without a sign.
fn magnitude_of(a: i64) -> (m: u64)
    ensures
        m == magnitude(a as int),
{
    if a >= 0 {
        a as u64
    } else {
        let wide: i128 = -(a as i128);
        wide as u64
    }
}

/// Locks a displacement to its dominant axis.
pub fn snap_to_major_axis(v: Vector) -> (locked: Vector)
    ensures
        locked == snapped(v),
{
    if magnitude_of(v.y) >= magnitude_of(v.x) {
        Vector { x: 0, y: v.y }
    } else {
        Vector { x: v.x, y: 0 }
    }
}

/// Turns a wheel movement into scroll units.
pub fn resolve_delta(delta: MouseScrollDelta) -> (v: Vector)
    ensures
        v == resolved(delta),
{
    match delta {
        MouseScrollDelta::LineDelta(dx, dy) => Vector { x: dx as i64, y: dy as i64 * LINE_HEIGHT },
        MouseScrollDelta::PixelDelta(x, y) => Vector { x: x as i64, y: y as i64 },
    }
}

/// Names a platform phase as the engine does.
pub fn phase_to_touch_event_type(phase: TouchPhase) -> (kind: TouchEventType)
    ensures
        kind == touch_event_type(phase),
{
    match phase {
        TouchPhase::Started => TouchEventType::Down,
        TouchPhase::Moved => TouchEventType::Move,
        TouchPhase::Ended => TouchEventType::Up,
        TouchPhase::Cancelled => TouchEventType::Cancel,
    }
}

/// One window's translator: its state and the events it has produced and
/// not yet handed out.
pub struct Window {
    state: WindowState,
    event_queue: Vec<WindowEvent>,
}

impl Window {
    /// What the translator remembers.
    pub closed spec fn state(&self) -> WindowState {
        self.state
    }

    /// The events produced and not yet handed out, oldest first.
    pub closed spec fn queued(&self) -> Seq<WindowEvent> {
        self.event_queue@
    }

    /// Whether events are collected by polling: the engine animates and the
    /// application is not suspended.
    pub open spec fn animating(&self) -> bool {
        self.state().animation_state == AnimationState::Animating && !self.state().suspended
    }

    /// The state of a window that has just been opened with the given
    /// content size and display density.
    pub open spec fn initial_state(inner_size: Size, hidpi_factor: Scale) -> WindowState {
        WindowState {
            inner_size,
            mouse_down_button: None,
            mouse_down_point: Point { x: 0, y: 0 },
            mouse_pos: Point { x: 0, y: 0 },
            key_modifiers: KeyModifiers::none(),
            last_pressed_key: None,
            animation_state: AnimationState::Idle,
            fullscreen: false,
            suspended: false,
            hidpi_factor,
        }
    }

    /// Creates the translator for a window that has just been opened.
    pub fn new(inner_size: Size, hidpi_factor: Scale) -> (window: Window)
        ensures
            window.state() == Self::initial_state(inner_size, hidpi_factor),
            window.queued() == Seq::<WindowEvent>::empty(),
    {
        Window {
            state: WindowState {
                inner_size,
                mouse_down_button: None,
                mouse_down_point: Point { x: 0, y: 0 },
                mouse_pos: Point { x: 0, y: 0 },
                key_modifiers: KeyModifiers::empty(),
                last_pressed_key: None,
                animation_state: AnimationState::Idle,
                fullscreen: false,
                suspended: false,
                hidpi_factor,
            },
            event_queue: Vec::new(),
        }
    }

    /// Hands out the queued events, oldest first, and leaves the queue
    /// empty: a second call right after gives nothing.
    pub fn get_events(&mut self) -> (events: Vec<WindowEvent>)
        ensures
            events@ == old(self).queued(),
            final(self).queued() == Seq::<WindowEvent>::empty(),
            final(self).state() == old(self).state(),
    {
        let mut events: Vec<WindowEvent> = Vec::new();
        std::mem::swap(&mut self.event_queue, &mut events);
        events
    }

    /// Tells whether any event waits in the queue.
    pub fn has_events(&self) -> (waiting: bool)
        ensures
            waiting == (self.queued().len() > 0),
    {
        self.event_queue.len() > 0
    }

    /// A copy of what the translator remembers.
    pub fn current_state(&self) -> (state: WindowState)
        ensures
            state == self.state(),
    {
        self.state
    }

    /// The height of one page: the height of the window's content in
    /// device pixels.
    pub fn page_height(&self) -> (height: u32)
        ensures
            height == self.state().inner_size.height,
    {
        self.state.inner_size.height
    }

    /// Records the display density that the platform reports.
    pub fn set_hidpi_factor(&mut self, hidpi_factor: Scale)
        ensures
            final(self).state() == (WindowState { hidpi_factor, ..old(self).state() }),
            final(self).queued() == old(self).queued(),
    {
        self.state.hidpi_factor = hidpi_factor;
    }

    /// Records the wanted fullscreen state and tells whether it differs
    /// from the one recorded before, in which case the host has to switch
    /// the platform window over.
    pub fn set_fullscreen(&mut self, state: bool) -> (changed: bool)
        ensures
            changed == (old(self).state().fullscreen != state),
            final(self).state() == (WindowState { fullscreen: state, ..old(self).state() }),
            final(self).queued() == old(self).queued(),
    {
        let changed = self.state.fullscreen != state;
        self.state.fullscreen = state;
        changed
    }

    /// Records whether the engine animates.
    pub fn set_animation_state(&mut self, state: AnimationState)
        ensures
            final(self).state() == (WindowState { animation_state: state, ..old(self).state() }),
            final(self).queued() == old(self).queued(),
    {
        self.state.animation_state = state;
    }

    /// Tells whether events are collected by polling.
    pub fn is_animating(&self) -> (animating: bool)
        ensures
            animating == self.animating(),
    {
        match self.state.animation_state {
            AnimationState::Animating => !self.state.suspended,
            AnimationState::Idle => false,
        }
    }

    /// Picks the platform cursor for the kind the page asks for.
    pub fn set_cursor(&self, cursor: CursorKind) -> (shown: MouseCursor)
        ensures
            shown == platform_cursor(cursor),
    {
        match cursor {
            CursorKind::Auto => MouseCursor::Default,
            CursorKind::Default => MouseCursor::Default,
            CursorKind::Pointer => MouseCursor::Hand,
            CursorKind::ContextMenu => MouseCursor::ContextMenu,
            CursorKind::Help => MouseCursor::Help,
            CursorKind::Progress => MouseCursor::Progress,
            CursorKind::Wait => MouseCursor::Wait,
            CursorKind::Cell => MouseCursor::Cell,
            CursorKind::Crosshair => MouseCursor::Crosshair,
            CursorKind::Text => MouseCursor::Text,
            CursorKind::VerticalText => MouseCursor::VerticalText,
            CursorKind::Alias => MouseCursor::Alias,
            CursorKind::Copy => MouseCursor::Copy,
            CursorKind::Move => MouseCursor::Move,
            CursorKind::NoDrop => MouseCursor::NoDrop,
            CursorKind::NotAllowed => MouseCursor::NotAllowed,
            CursorKind::Grab => MouseCursor::Grab,
            CursorKind::Grabbing => MouseCursor::Grabbing,
            CursorKind::EResize => MouseCursor::EResize,
            CursorKind::NResize => MouseCursor::NResize,
            CursorKind::NeResize => MouseCursor::NeResize,
            CursorKind::NwResize => MouseCursor::NwResize,
            CursorKind::SResize => MouseCursor::SResize,
            CursorKind::SeResize => MouseCursor::SeResize,
            CursorKind::SwResize => MouseCursor::SwResize,
            CursorKind::WResize => MouseCursor::WResize,
            CursorKind::EwResize => MouseCursor::EwResize,
            CursorKind::NsResize => MouseCursor::NsResize,
            CursorKind::NeswResize => MouseCursor::NeswResize,
            CursorKind::NwseResize => MouseCursor::NwseResize,
            CursorKind::ColResize => MouseCursor::ColResize,
            CursorKind::RowResize => MouseCursor::RowResize,
            CursorKind::AllScroll => MouseCursor::AllScroll,
            CursorKind::ZoomIn => MouseCursor::ZoomIn,
            CursorKind::ZoomOut => MouseCursor::ZoomOut,
            CursorKind::Other => MouseCursor::Default,
        }
    }

    /// Puts one modifier into the tracked set or takes it out.
    pub fn toggle_modifier(&mut self, modifier: Modifier, pressed: bool)
        ensures
            final(self).state() == (WindowState {
                key_modifiers: old(self).state().key_modifiers.set(modifier, pressed),
                ..old(self).state()
            }),
            final(self).queued() == old(self).queued(),
    {
        self.state.key_modifiers.toggle(modifier, pressed);
    }

    /// Makes the tracked modifiers equal to what the platform reports.
    pub fn toggle_keyboard_modifiers(&mut self, mods: ModifiersState)
        ensures
            final(self).state() == (WindowState {
                key_modifiers: tracked_modifiers(mods),
                ..old(self).state()
            }),
            final(self).queued() == old(self).queued(),
    {
        self.toggle_modifier(Modifier::Control, mods.ctrl);
        self.toggle_modifier(Modifier::Shift, mods.shift);
        self.toggle_modifier(Modifier::Alt, mods.alt);
        self.toggle_modifier(Modifier::Super, mods.logo);
    }

    /// Handles a character that text input produced.
    pub fn handle_received_character(&mut self, ch: char, key: Option<Key>)
        ensures
            final(self).state() == (WindowState { last_pressed_key: None, ..old(self).state() }),
            final(self).queued() == old(self).queued() + character_events(
                old(self).state(),
                ch,
                key,
            ),
    {
        let last_key = match self.state.last_pressed_key {
            Some(k) => k,
            None => {
                assert(old(self).queued() + Seq::<WindowEvent>::empty() == old(self).queued());
                return ;
            },
        };
        self.state.last_pressed_key = None;
        let modifiers = self.state.key_modifiers;
        let logical = match key {
            Some(k) => k,
            None => last_key,
        };
        let event = WindowEvent::KeyEvent(Some(ch), logical, KeyState::Pressed, modifiers);
        self.event_queue.push(event);
        assert(final(self).queued() == old(self).queued() + seq![event]);
    }

    /// Handles a key that went down or up.
    pub fn handle_keyboard_input(
        &mut self,
        element_state: ElementState,
        key: Option<Key>,
        printable: bool,
        mods: ModifiersState,
    )
        ensures
            final(self).state() == after_keyboard(
                old(self).state(),
                element_state,
                key,
                printable,
                mods,
            ),
            final(self).queued() == old(self).queued() + keyboard_events(
                element_state,
                key,
                printable,
                mods,
            ),
    {
        self.toggle_keyboard_modifiers(mods);
        if let Some(k) = key {
            let state = match element_state {
                ElementState::Pressed => KeyState::Pressed,
                ElementState::Released => KeyState::Released,
            };
            let pressed = match element_state {
                ElementState::Pressed => true,
                ElementState::Released => false,
            };
            if pressed && printable {
                self.state.last_pressed_key = Some(k);
                assert(self.queued() + Seq::<WindowEvent>::empty() == self.queued());
            } else {
                self.state.last_pressed_key = None;
                let modifiers = self.state.key_modifiers;
                let event = WindowEvent::KeyEvent(None, k, state, modifiers);
                self.event_queue.push(event);
                assert(self.queued() == old(self).queued() + seq![event]);
            }
        } else {
            self.state.last_pressed_key = None;
            assert(self.queued() + Seq::<WindowEvent>::empty() == self.queued());
        }
    }

    /// Handles a button that went down or up at `coords`.
    pub fn handle_mouse(&mut self, button: PlatformButton, action: ElementState, coords: Point)
        ensures
            final(self).state() == after_mouse(old(self).state(), button, action, coords),
            final(self).queued() == old(self).queued() + mouse_events(
                old(self).state(),
                button,
                action,
                coords,
            ),
    {
        let named = match button {
            PlatformButton::Left => MouseButton::Left,
            PlatformButton::Right => MouseButton::Right,
            _ => {
                assert(self.queued() + Seq::<WindowEvent>::empty() == self.queued());
                return ;
            },
        };
        match action {
            ElementState::Pressed => {
                self.state.mouse_down_point = coords;
                self.state.mouse_down_button = Some(button);
                let down = WindowEvent::MouseWindowEventClass(
                    MouseWindowEvent::MouseDown(named, coords),
                );
                self.event_queue.push(down);
                assert(self.queued() == old(self).queued() + seq![down]);
            },
            ElementState::Released => {
                let up = WindowEvent::MouseWindowEventClass(
                    MouseWindowEvent::MouseUp(named, coords),
                );
                let same_button = match self.state.mouse_down_button {
                    Some(down) => same_platform_button(down, button),
                    None => false,
                };
                self.event_queue.push(up);
                if same_button && is_click(
                    self.state.mouse_down_point,
                    coords,
                    self.state.hidpi_factor,
                ) {
                    let click = WindowEvent::MouseWindowEventClass(
                        MouseWindowEvent::Click(named, coords),
                    );
                    self.event_queue.push(click);
                    assert(self.queued() == old(self).queued() + seq![up, click]);
                } else {
                    assert(self.queued() == old(self).queued() + seq![up]);
                }
            },
        }
    }

    /// Translates one platform event: updates the state and appends the
    /// events it gives rise to, in order, to the queue.
    pub fn handle_event(&mut self, event: PlatformEvent)
        ensures
            final(self).state() == state_after(old(self).state(), event),
            final(self).queued() == old(self).queued() + events_for(old(self).state(), event),
    {
        match event {
            PlatformEvent::ReceivedCharacter { ch, key } => {
                self.handle_received_character(ch, key);
            },
            PlatformEvent::KeyboardInput { state, key, printable, modifiers } => {
                self.handle_keyboard_input(state, key, printable, modifiers);
            },
            PlatformEvent::MouseInput { state, button } => {
                let position = self.state.mouse_pos;
                self.handle_mouse(button, state, position);
            },
            PlatformEvent::CursorMoved { position } => {
                self.state.mouse_pos = position;
                let moved = WindowEvent::MouseWindowMoveEventClass(position);
                self.event_queue.push(moved);
                assert(self.queued() == old(self).queued() + seq![moved]);
            },
            PlatformEvent::MouseWheel { delta, phase } => {
                let scroll_location = ScrollLocation::Delta(snap_to_major_axis(resolve_delta(delta)));
                let phase = phase_to_touch_event_type(phase);
                let scroll = WindowEvent::Scroll(scroll_location, self.state.mouse_pos, phase);
                self.event_queue.push(scroll);
                assert(self.queued() == old(self).queued() + seq![scroll]);
            },
            PlatformEvent::Touch { phase, id, location } => {
                let phase = phase_to_touch_event_type(phase);
                let touch = WindowEvent::Touch(phase, TouchId(id), location);
                self.event_queue.push(touch);
                assert(self.queued() == old(self).queued() + seq![touch]);
            },
            PlatformEvent::Refresh => {
                self.event_queue.push(WindowEvent::Refresh);
                assert(self.queued() == old(self).queued() + seq![WindowEvent::Refresh]);
            },
            PlatformEvent::CloseRequested => {
                self.event_queue.push(WindowEvent::Quit);
                assert(self.queued() == old(self).queued() + seq![WindowEvent::Quit]);
            },
            PlatformEvent::Resized { size } => {
                if self.state.inner_size != size {
                    self.state.inner_size = size;
                    self.event_queue.push(WindowEvent::Resize);
                    assert(self.queued() == old(self).queued() + seq![WindowEvent::Resize]);
                } else {
                    assert(self.queued() + Seq::<WindowEvent>::empty() == self.queued());
                }
            },
            PlatformEvent::Suspended(suspended) => {
                self.state.suspended = suspended;
                if !suspended {
                    self.event_queue.push(WindowEvent::Idle);
                    assert(self.queued() == old(self).queued() + seq![WindowEvent::Idle]);
                } else {
                    assert(self.queued() + Seq::<WindowEvent>::empty() == self.queued());
                }
            },
            PlatformEvent::Awakened => {
                self.event_queue.push(WindowEvent::Idle);
                assert(self.queued() == old(self).queued() + seq![WindowEvent::Idle]);
            },
            PlatformEvent::Other => {
                assert(self.queued() + Seq::<WindowEvent>::empty() == self.queued());
            },
        }
    }
}

/// Snapping leaves exactly one component of a displacement other than
/// zero, and that one is the component of larger magnitude, unchanged; on
/// a tie it is the vertical one. (The zero displacement has no component
/// to keep and stays zero.)
pub proof fn law_snap_keeps_dominant_axis(v: Vector)
    requires
        v.x != 0 || v.y != 0,
    ensures
        (snapped(v).x == 0) != (snapped(v).y == 0),
        snapped(v).x == 0 ==> snapped(v).y == v.y && magnitude(v.y as int) >= magnitude(
            v.x as int,
        ),
        snapped(v).y == 0 ==> snapped(v).x == v.x && magnitude(v.x as int) > magnitude(
            v.y as int,
        ),
{
}

/// A handled button that goes down at `down` and comes up at `up` gives a
/// mouse-down, a mouse-up and, exactly when `up` lies strictly within the
/// density-scaled threshold of `down`, one click; at or beyond the
/// threshold it gives no click. All of them carry the button.
pub proof fn law_click_iff_within_threshold(
    s: WindowState,
    button: PlatformButton,
    named: MouseButton,
    down: Point,
    up: Point,
)
    requires
        engine_button(button) == Some(named),
    ensures
        mouse_events(s, button, ElementState::Pressed, down) + mouse_events(
            after_mouse(s, button, ElementState::Pressed, down),
            button,
            ElementState::Released,
            up,
        ) == if within_click_distance(down, up, s.hidpi_factor) {
            seq![
                WindowEvent::MouseWindowEventClass(MouseWindowEvent::MouseDown(named, down)),
                WindowEvent::MouseWindowEventClass(MouseWindowEvent::MouseUp(named, up)),
                WindowEvent::MouseWindowEventClass(MouseWindowEvent::Click(named, up)),
            ]
        } else {
            seq![
                WindowEvent::MouseWindowEventClass(MouseWindowEvent::MouseDown(named, down)),
                WindowEvent::MouseWindowEventClass(MouseWindowEvent::MouseUp(named, up)),
            ]
        },
{
}

/// The same at the level of platform events: the cursor moves to `down`,
/// a handled button goes down, the cursor moves to `up`, the button comes
/// up. The translator reports the two movements, the mouse-down and the
/// mouse-up, and one click exactly when `up` lies strictly within the
/// threshold of `down`.
pub proof fn law_click_follows_the_cursor(
    s: WindowState,
    button: PlatformButton,
    named: MouseButton,
    down: Point,
    up: Point,
)
    requires
        engine_button(button) == Some(named),
    ensures
        events_for_all(
            s,
            seq![
                PlatformEvent::CursorMoved { position: down },
                PlatformEvent::MouseInput { state: ElementState::Pressed, button },
                PlatformEvent::CursorMoved { position: up },
                PlatformEvent::MouseInput { state: ElementState::Released, button },
            ],
        ) == seq![
            WindowEvent::MouseWindowMoveEventClass(down),
            WindowEvent::MouseWindowEventClass(MouseWindowEvent::MouseDown(named, down)),
            WindowEvent::MouseWindowMoveEventClass(up),
            WindowEvent::MouseWindowEventClass(MouseWindowEvent::MouseUp(named, up)),
        ] + if within_click_distance(down, up, s.hidpi_factor) {
            seq![WindowEvent::MouseWindowEventClass(MouseWindowEvent::Click(named, up))]
        } else {
            Seq::<WindowEvent>::empty()
        },
{
    let e1 = PlatformEvent::CursorMoved { position: down };
    let e2 = PlatformEvent::MouseInput { state: ElementState::Pressed, button };
    let e3 = PlatformEvent::CursorMoved { position: up };
    let e4 = PlatformEvent::MouseInput { state: ElementState::Released, button };
    let s1 = state_after(s, e1);
    let s2 = state_after(s1, e2);
    lemma_events_for_first(s, e1, seq![e2, e3, e4]);
    lemma_events_for_first(s1, e2, seq![e3, e4]);
    lemma_events_for_pair(s2, e3, e4);
    assert(seq![e1] + seq![e2, e3, e4] == seq![e1, e2, e3, e4]);
    assert(seq![e2] + seq![e3, e4] == seq![e2, e3, e4]);
}

/// A release never clicks when another button, or none, was the last to go
/// down: it gives the mouse-up alone.
pub proof fn law_release_of_other_button_never_clicks(
    s: WindowState,
    button: PlatformButton,
    named: MouseButton,
    up: Point,
)
    requires
        engine_button(button) == Some(named),
        s.mouse_down_button != Some(button),
    ensures
        mouse_events(s, button, ElementState::Released, up) == seq![
            WindowEvent::MouseWindowEventClass(MouseWindowEvent::MouseUp(named, up)),
        ],
{
}

/// A button that is not handled leaves no trace: no event, and the state
/// as it was.
pub proof fn law_other_buttons_are_ignored(
    s: WindowState,
    button: PlatformButton,
    action: ElementState,
)
    requires
        engine_button(button) is None,
    ensures
        events_for(s, PlatformEvent::MouseInput { state: action, button }) == Seq::<
            WindowEvent,
        >::empty(),
        state_after(s, PlatformEvent::MouseInput { state: action, button }) == s,
{
}

/// A printable key that goes down, followed at once by the character it
/// produced, gives one key press that carries both the character and a
/// logical key: the key that the character stands for, or the key that
/// went down where the character stands for none.
pub proof fn law_key_composition(
    s: WindowState,
    key: Key,
    mods: ModifiersState,
    ch: char,
    ch_key: Option<Key>,
)
    ensures
        events_for_all(
            s,
            seq![
                PlatformEvent::KeyboardInput {
                    state: ElementState::Pressed,
                    key: Some(key),
                    printable: true,
                    modifiers: mods,
                },
                PlatformEvent::ReceivedCharacter { ch, key: ch_key },
            ],
        ) == seq![
            WindowEvent::KeyEvent(
                Some(ch),
                composed_key(key, ch_key),
                KeyState::Pressed,
                tracked_modifiers(mods),
            ),
        ],
        state_after(
            state_after(
                s,
                PlatformEvent::KeyboardInput {
                    state: ElementState::Pressed,
                    key: Some(key),
                    printable: true,
                    modifiers: mods,
                },
            ),
            PlatformEvent::ReceivedCharacter { ch, key: ch_key },
        ).last_pressed_key is None,
{
    let down = PlatformEvent::KeyboardInput {
        state: ElementState::Pressed,
        key: Some(key),
        printable: true,
        modifiers: mods,
    };
    let produced = PlatformEvent::ReceivedCharacter { ch, key: ch_key };
    lemma_events_for_pair(s, down, produced);
}

/// A printable key that goes down, followed by another key event and no
/// character in between, is dropped without a trace: the pair gives what
/// the second event gives alone, and the first key no longer waits for a
/// character. Only the key of the second event waits, if it is deferred.
pub proof fn law_deferred_key_is_dropped(
    s: WindowState,
    first: Key,
    first_mods: ModifiersState,
    state: ElementState,
    second: Option<Key>,
    printable: bool,
    mods: ModifiersState,
)
    ensures
        events_for_all(
            s,
            seq![
                PlatformEvent::KeyboardInput {
                    state: ElementState::Pressed,
                    key: Some(first),
                    printable: true,
                    modifiers: first_mods,
                },
                PlatformEvent::KeyboardInput { state, key: second, printable, modifiers: mods },
            ],
        ) == keyboard_events(state, second, printable, mods),
        state_after(
            state_after(
                s,
                PlatformEvent::KeyboardInput {
                    state: ElementState::Pressed,
                    key: Some(first),
                    printable: true,
                    modifiers: first_mods,
                },
            ),
            PlatformEvent::KeyboardInput { state, key: second, printable, modifiers: mods },
        ).last_pressed_key == if defers(state, second, printable) {
            second
        } else {
            None
        },
{
    let down = PlatformEvent::KeyboardInput {
        state: ElementState::Pressed,
        key: Some(first),
        printable: true,
        modifiers: first_mods,
    };
    let next = PlatformEvent::KeyboardInput { state, key: second, printable, modifiers: mods };
    lemma_events_for_pair(s, down, next);
}

/// The tracked modifiers equal what the platform reported with the last
/// key event, whether or not that event produced anything.
pub proof fn law_modifiers_follow_every_key_event(
    s: WindowState,
    state: ElementState,
    key: Option<Key>,
    printable: bool,
    mods: ModifiersState,
)
    ensures
        state_after(
            s,
            PlatformEvent::KeyboardInput { state, key, printable, modifiers: mods },
        ).key_modifiers == tracked_modifiers(mods),
{
}

/// A resize is reported when the size changes and only then: a second
/// resize to the same size produces nothing.
pub proof fn law_resize_is_reported_once(s: WindowState, size: Size)
    ensures
        events_for(s, PlatformEvent::Resized { size }) == if s.inner_size == size {
            Seq::<WindowEvent>::empty()
        } else {
            seq![WindowEvent::Resize]
        },
        events_for(
            state_after(s, PlatformEvent::Resized { size }),
            PlatformEvent::Resized { size },
        ) == Seq::<WindowEvent>::empty(),
{
}

/// The events of a run of platform events are those of the first, then
/// those of the rest in the state the first left.
proof fn lemma_events_for_first(s: WindowState, first: PlatformEvent, rest: Seq<PlatformEvent>)
    ensures
        events_for_all(s, seq![first] + rest) == events_for(s, first) + events_for_all(
            state_after(s, first),
            rest,
        ),
{
    let all = seq![first] + rest;
    assert(all[0] == first);
    assert(all.drop_first() == rest);
}

/// The events of two platform events in a row are those of the first,
/// then those of the second in the state the first left.
proof fn lemma_events_for_pair(s: WindowState, first: PlatformEvent, second: PlatformEvent)
    ensures
        events_for_all(s, seq![first, second]) == events_for(s, first) + events_for(
            state_after(s, first),
            second,
        ),
{
    let both = seq![first, second];
    let rest = both.drop_first();
    assert(rest == seq![second]);
    assert(rest.drop_first() == Seq::<PlatformEvent>::empty());
    reveal_with_fuel(events_for_all, 3);
    let s1 = state_after(s, first);
    assert(events_for_all(s1, rest) == events_for(s1, second) + Seq::<WindowEvent>::empty());
    assert(events_for(s1, second) + Seq::<WindowEvent>::empty() == events_for(s1, second));
}

/// Tells whether two platform buttons are the same button.
fn same_platform_button(a: PlatformButton, b: PlatformButton) -> (same: bool)
    ensures
        same == (a == b),
{
    a == b
}

} // verus!
