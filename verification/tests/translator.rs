use servo_gui::events::{
    MouseButton, MouseWindowEvent, ScrollLocation, TouchEventType, TouchId, WindowEvent,
};
use servo_gui::geometry::{is_click, Point, Scale, Size, Vector, UNITS_PER_PIXEL};
use servo_gui::keys::{Key, KeyModifiers, KeyState, Modifier};
use servo_gui::platform::{
    ElementState, ModifiersState, MouseScrollDelta, PlatformButton, PlatformEvent, TouchPhase,
};
use servo_gui::window::{
    phase_to_touch_event_type, resolve_delta, snap_to_major_axis, AnimationState, Window,
    LINE_HEIGHT,
};

fn window_with_density(numer: u32, denom: u32) -> Window {
    Window::new(Size { width: 800, height: 600 }, Scale { numer, denom })
}

fn no_mods() -> ModifiersState {
    ModifiersState { shift: false, ctrl: false, alt: false, logo: false }
}

fn down(p: Point) -> WindowEvent {
    WindowEvent::MouseWindowEventClass(MouseWindowEvent::MouseDown(MouseButton::Left, p))
}

fn up(p: Point) -> WindowEvent {
    WindowEvent::MouseWindowEventClass(MouseWindowEvent::MouseUp(MouseButton::Left, p))
}

fn click(p: Point) -> WindowEvent {
    WindowEvent::MouseWindowEventClass(MouseWindowEvent::Click(MouseButton::Left, p))
}

fn press_and_release(window: &mut Window, button: PlatformButton, from: Point, to: Point) -> Vec<WindowEvent> {
    window.handle_mouse(button, ElementState::Pressed, from);
    window.handle_mouse(button, ElementState::Released, to);
    window.get_events()
}

#[test]
fn release_within_threshold_clicks() {
    let mut window = window_with_density(1, 1);
    let from = Point { x: 100, y: 100 };
    let to = Point { x: 106, y: 107 };
    let events = press_and_release(&mut window, PlatformButton::Left, from, to);
    assert_eq!(events, vec![down(from), up(to), click(to)]);
}

#[test]
fn release_on_the_same_point_clicks() {
    let mut window = window_with_density(1, 1);
    let at = Point { x: -5, y: 12 };
    let events = press_and_release(&mut window, PlatformButton::Left, at, at);
    assert_eq!(events, vec![down(at), up(at), click(at)]);
}

#[test]
fn right_button_is_reported_as_the_right_button() {
    let mut window = window_with_density(1, 1);
    let from = Point { x: 1, y: 2 };
    let near = Point { x: 2, y: 3 };
    let events = press_and_release(&mut window, PlatformButton::Right, from, near);
    assert_eq!(
        events,
        vec![
            WindowEvent::MouseWindowEventClass(MouseWindowEvent::MouseDown(MouseButton::Right, from)),
            WindowEvent::MouseWindowEventClass(MouseWindowEvent::MouseUp(MouseButton::Right, near)),
            WindowEvent::MouseWindowEventClass(MouseWindowEvent::Click(MouseButton::Right, near)),
        ]
    );
    let far = Point { x: 1, y: 12 };
    let events = press_and_release(&mut window, PlatformButton::Right, from, far);
    assert_eq!(
        events,
        vec![
            WindowEvent::MouseWindowEventClass(MouseWindowEvent::MouseDown(MouseButton::Right, from)),
            WindowEvent::MouseWindowEventClass(MouseWindowEvent::MouseUp(MouseButton::Right, far)),
        ]
    );
}

#[test]
fn unhandled_buttons_leave_no_trace() {
    let mut window = window_with_density(1, 1);
    let at = Point { x: 0, y: 0 };
    window.handle_mouse(PlatformButton::Left, ElementState::Pressed, at);
    let before = window.current_state();
    let _ = window.get_events();
    window.handle_mouse(PlatformButton::Middle, ElementState::Pressed, Point { x: 9, y: 9 });
    window.handle_mouse(PlatformButton::Other(4), ElementState::Released, at);
    assert!(!window.has_events());
    assert_eq!(window.current_state(), before);
}

#[test]
fn release_at_threshold_does_not_click() {
    let mut window = window_with_density(1, 1);
    let from = Point { x: 0, y: 0 };
    let to = Point { x: 6, y: 8 };
    let events = press_and_release(&mut window, PlatformButton::Left, from, to);
    assert_eq!(events, vec![down(from), up(to)]);
}

#[test]
fn release_beyond_threshold_does_not_click() {
    let mut window = window_with_density(1, 1);
    let from = Point { x: 0, y: 0 };
    let to = Point { x: 0, y: 11 };
    let events = press_and_release(&mut window, PlatformButton::Left, from, to);
    assert_eq!(events, vec![down(from), up(to)]);
}

#[test]
fn threshold_scales_with_density() {
    let mut window = window_with_density(2, 1);
    let from = Point { x: 0, y: 0 };
    let near = Point { x: 12, y: 15 };
    let events = press_and_release(&mut window, PlatformButton::Left, from, near);
    assert_eq!(events, vec![down(from), up(near), click(near)]);
    let edge = Point { x: 12, y: 16 };
    let events = press_and_release(&mut window, PlatformButton::Left, from, edge);
    assert_eq!(events, vec![down(from), up(edge)]);
}

#[test]
fn threshold_scales_with_fractional_density() {
    // 10 * 3/2 = 15 device pixels.
    let density = Scale { numer: 3, denom: 2 };
    let origin = Point { x: 0, y: 0 };
    assert!(is_click(origin, Point { x: 9, y: 11 }, density));
    assert!(is_click(origin, Point { x: 14, y: 5 }, density));
    assert!(!is_click(origin, Point { x: 9, y: 12 }, density));
    assert!(!is_click(origin, Point { x: 15, y: 0 }, density));
    // 10 * 5/4 = 12.5 device pixels.
    let density = Scale { numer: 5, denom: 4 };
    assert!(is_click(origin, Point { x: 12, y: 3 }, density));
    assert!(!is_click(origin, Point { x: 12, y: 4 }, density));
}

#[test]
fn click_distance_at_the_ends_of_the_range() {
    let density = Scale { numer: u32::MAX, denom: 1 };
    let far = Point { x: i32::MAX, y: i32::MAX };
    let other = Point { x: i32::MIN, y: i32::MIN };
    assert!(is_click(far, other, density));
    let density = Scale { numer: 1, denom: u32::MAX };
    assert!(!is_click(far, other, density));
    assert!(!is_click(far, Point { x: i32::MAX - 1, y: i32::MAX }, density));
    assert!(is_click(far, far, density));
    let zero = Scale { numer: 0, denom: 1 };
    assert!(!is_click(far, far, zero));
}

#[test]
fn release_of_another_button_does_not_click() {
    let mut window = window_with_density(1, 1);
    let at = Point { x: 3, y: 4 };
    window.handle_mouse(PlatformButton::Left, ElementState::Pressed, at);
    window.handle_mouse(PlatformButton::Right, ElementState::Released, at);
    assert_eq!(
        window.get_events(),
        vec![
            down(at),
            WindowEvent::MouseWindowEventClass(MouseWindowEvent::MouseUp(MouseButton::Right, at)),
        ]
    );
}

#[test]
fn release_without_press_does_not_click() {
    let mut window = window_with_density(1, 1);
    let at = Point { x: 0, y: 0 };
    window.handle_mouse(PlatformButton::Left, ElementState::Released, at);
    assert_eq!(window.get_events(), vec![up(at)]);
}

#[test]
fn mouse_input_uses_the_last_cursor_position() {
    let mut window = window_with_density(1, 1);
    let p0 = Point { x: 10, y: 20 };
    let p1 = Point { x: 13, y: 24 };
    window.handle_event(PlatformEvent::CursorMoved { position: p0 });
    window.handle_event(PlatformEvent::MouseInput { state: ElementState::Pressed, button: PlatformButton::Left });
    window.handle_event(PlatformEvent::CursorMoved { position: p1 });
    window.handle_event(PlatformEvent::MouseInput { state: ElementState::Released, button: PlatformButton::Left });
    assert_eq!(
        window.get_events(),
        vec![
            WindowEvent::MouseWindowMoveEventClass(p0),
            down(p0),
            WindowEvent::MouseWindowMoveEventClass(p1),
            up(p1),
            click(p1),
        ]
    );
    let state = window.current_state();
    assert_eq!(state.mouse_pos, p1);
    assert_eq!(state.mouse_down_point, p0);
    assert_eq!(state.mouse_down_button, Some(PlatformButton::Left));
}

#[test]
fn other_buttons_are_ignored() {
    let mut window = window_with_density(1, 1);
    window.handle_event(PlatformEvent::MouseInput { state: ElementState::Pressed, button: PlatformButton::Middle });
    window.handle_event(PlatformEvent::MouseInput { state: ElementState::Released, button: PlatformButton::Other(7) });
    assert_eq!(window.get_events(), Vec::<WindowEvent>::new());
    assert_eq!(window.current_state().mouse_down_button, None);
}

#[test]
fn snapping_keeps_the_dominant_axis() {
    assert_eq!(snap_to_major_axis(Vector { x: 3, y: -7 }), Vector { x: 0, y: -7 });
    assert_eq!(snap_to_major_axis(Vector { x: -9, y: 7 }), Vector { x: -9, y: 0 });
    assert_eq!(snap_to_major_axis(Vector { x: 5, y: 0 }), Vector { x: 5, y: 0 });
    assert_eq!(snap_to_major_axis(Vector { x: 0, y: 5 }), Vector { x: 0, y: 5 });
}

#[test]
fn snapping_prefers_vertical_on_a_tie() {
    assert_eq!(snap_to_major_axis(Vector { x: 4, y: 4 }), Vector { x: 0, y: 4 });
    assert_eq!(snap_to_major_axis(Vector { x: -4, y: 4 }), Vector { x: 0, y: 4 });
    assert_eq!(snap_to_major_axis(Vector { x: 4, y: -4 }), Vector { x: 0, y: -4 });
}

#[test]
fn snapping_zero_stays_zero() {
    assert_eq!(snap_to_major_axis(Vector { x: 0, y: 0 }), Vector { x: 0, y: 0 });
}

#[test]
fn snapping_at_the_ends_of_the_range() {
    assert_eq!(snap_to_major_axis(Vector { x: i64::MIN, y: i64::MAX }), Vector { x: i64::MIN, y: 0 });
    assert_eq!(snap_to_major_axis(Vector { x: i64::MAX, y: i64::MIN }), Vector { x: 0, y: i64::MIN });
    assert_eq!(snap_to_major_axis(Vector { x: i64::MIN, y: i64::MIN }), Vector { x: 0, y: i64::MIN });
}

#[test]
fn line_delta_counts_line_height_vertically() {
    assert_eq!(LINE_HEIGHT, 38);
    assert_eq!(UNITS_PER_PIXEL, 64);
    // Two lines to the right, three lines up.
    assert_eq!(
        resolve_delta(MouseScrollDelta::LineDelta(2 * 64, -3 * 64)),
        Vector { x: 2 * 64, y: -114 * 64 }
    );
    // Half a line down.
    assert_eq!(resolve_delta(MouseScrollDelta::LineDelta(0, 32)), Vector { x: 0, y: 19 * 64 });
    assert_eq!(resolve_delta(MouseScrollDelta::PixelDelta(2, -3)), Vector { x: 2, y: -3 });
    assert_eq!(
        resolve_delta(MouseScrollDelta::LineDelta(i32::MIN, i32::MIN)),
        Vector { x: i32::MIN as i64, y: i32::MIN as i64 * 38 }
    );
    assert_eq!(
        resolve_delta(MouseScrollDelta::LineDelta(i32::MAX, i32::MAX)),
        Vector { x: i32::MAX as i64, y: i32::MAX as i64 * 38 }
    );
}

#[test]
fn wheel_scrolls_at_the_cursor_along_one_axis() {
    let mut window = window_with_density(1, 1);
    let at = Point { x: 7, y: 9 };
    window.handle_event(PlatformEvent::CursorMoved { position: at });
    window.handle_event(PlatformEvent::MouseWheel { delta: MouseScrollDelta::LineDelta(64, 64), phase: TouchPhase::Moved });
    window.handle_event(PlatformEvent::MouseWheel { delta: MouseScrollDelta::PixelDelta(-40, 39), phase: TouchPhase::Started });
    window.handle_event(PlatformEvent::MouseWheel { delta: MouseScrollDelta::LineDelta(37, 1), phase: TouchPhase::Ended });
    assert_eq!(
        window.get_events(),
        vec![
            WindowEvent::MouseWindowMoveEventClass(at),
            WindowEvent::Scroll(ScrollLocation::Delta(Vector { x: 0, y: 38 * 64 }), at, TouchEventType::Move),
            WindowEvent::Scroll(ScrollLocation::Delta(Vector { x: -40, y: 0 }), at, TouchEventType::Down),
            WindowEvent::Scroll(ScrollLocation::Delta(Vector { x: 0, y: 38 }), at, TouchEventType::Up),
        ]
    );
}

#[test]
fn phases_map_one_to_one() {
    assert_eq!(phase_to_touch_event_type(TouchPhase::Started), TouchEventType::Down);
    assert_eq!(phase_to_touch_event_type(TouchPhase::Moved), TouchEventType::Move);
    assert_eq!(phase_to_touch_event_type(TouchPhase::Ended), TouchEventType::Up);
    assert_eq!(phase_to_touch_event_type(TouchPhase::Cancelled), TouchEventType::Cancel);
}

#[test]
fn touch_maps_one_to_one() {
    let mut window = window_with_density(1, 1);
    let at = Point { x: 1, y: 2 };
    window.handle_event(PlatformEvent::Touch { phase: TouchPhase::Ended, id: 42, location: at });
    assert_eq!(window.get_events(), vec![WindowEvent::Touch(TouchEventType::Up, TouchId(42), at)]);
}

#[test]
fn printable_key_waits_for_its_character() {
    let mut window = window_with_density(1, 1);
    let mods = ModifiersState { shift: true, ctrl: false, alt: false, logo: false };
    window.handle_event(PlatformEvent::KeyboardInput {
        state: ElementState::Pressed,
        key: Some(Key::Other(65)),
        printable: true,
        modifiers: mods,
    });
    assert!(!window.has_events());
    assert_eq!(window.current_state().last_pressed_key, Some(Key::Other(65)));
    window.handle_event(PlatformEvent::ReceivedCharacter { ch: 'A', key: Some(Key::Other(65)) });
    let held = KeyModifiers::empty().with(Modifier::Shift);
    assert_eq!(
        window.get_events(),
        vec![WindowEvent::KeyEvent(Some('A'), Key::Other(65), KeyState::Pressed, held)]
    );
    assert_eq!(window.current_state().last_pressed_key, None);
}

#[test]
fn character_without_a_key_is_reported_with_the_deferred_key() {
    let mut window = window_with_density(1, 1);
    window.handle_keyboard_input(ElementState::Pressed, Some(Key::Other(3)), true, no_mods());
    window.handle_received_character('\u{e9}', None);
    assert_eq!(
        window.get_events(),
        vec![WindowEvent::KeyEvent(
            Some('\u{e9}'),
            Key::Other(3),
            KeyState::Pressed,
            KeyModifiers::empty()
        )]
    );
    assert_eq!(window.current_state().last_pressed_key, None);
}

#[test]
fn character_event_without_a_key_keeps_the_character() {
    let mut window = window_with_density(1, 1);
    let mods = ModifiersState { shift: false, ctrl: false, alt: true, logo: false };
    window.handle_event(PlatformEvent::KeyboardInput {
        state: ElementState::Pressed,
        key: Some(Key::Other(12)),
        printable: true,
        modifiers: mods,
    });
    window.handle_event(PlatformEvent::ReceivedCharacter { ch: '\u{3b1}', key: None });
    assert_eq!(
        window.get_events(),
        vec![WindowEvent::KeyEvent(
            Some('\u{3b1}'),
            Key::Other(12),
            KeyState::Pressed,
            KeyModifiers::single(Modifier::Alt)
        )]
    );
}

#[test]
fn character_without_a_deferred_key_is_dropped() {
    let mut window = window_with_density(1, 1);
    window.handle_event(PlatformEvent::ReceivedCharacter { ch: 'x', key: Some(Key::Other(88)) });
    assert!(!window.has_events());
}

#[test]
fn deferred_key_is_dropped_by_the_next_key() {
    let mut window = window_with_density(1, 1);
    window.handle_keyboard_input(ElementState::Pressed, Some(Key::Other(65)), true, no_mods());
    window.handle_keyboard_input(ElementState::Pressed, Some(Key::Left), false, no_mods());
    assert_eq!(
        window.get_events(),
        vec![WindowEvent::KeyEvent(None, Key::Left, KeyState::Pressed, KeyModifiers::empty())]
    );
    assert_eq!(window.current_state().last_pressed_key, None);
    window.handle_received_character('a', Some(Key::Other(65)));
    assert!(!window.has_events());
}

#[test]
fn deferred_key_is_replaced_by_the_next_printable_key() {
    let mut window = window_with_density(1, 1);
    window.handle_keyboard_input(ElementState::Pressed, Some(Key::Other(65)), true, no_mods());
    window.handle_keyboard_input(ElementState::Pressed, Some(Key::Other(66)), true, no_mods());
    assert!(!window.has_events());
    assert_eq!(window.current_state().last_pressed_key, Some(Key::Other(66)));
}

#[test]
fn released_keys_are_reported_at_once() {
    let mut window = window_with_density(1, 1);
    let mods = ModifiersState { shift: false, ctrl: true, alt: false, logo: true };
    window.handle_keyboard_input(ElementState::Released, Some(Key::Other(65)), true, mods);
    let held = KeyModifiers::empty().with(Modifier::Control).with(Modifier::Super);
    assert_eq!(
        window.get_events(),
        vec![WindowEvent::KeyEvent(None, Key::Other(65), KeyState::Released, held)]
    );
}

#[test]
fn modifiers_follow_every_key_event() {
    let mut window = window_with_density(1, 1);
    let mods = ModifiersState { shift: true, ctrl: true, alt: true, logo: true };
    window.handle_keyboard_input(ElementState::Pressed, None, false, mods);
    assert!(!window.has_events());
    let state = window.current_state();
    assert!(state.key_modifiers.contains(Modifier::Shift));
    assert!(state.key_modifiers.contains(Modifier::Control));
    assert!(state.key_modifiers.contains(Modifier::Alt));
    assert!(state.key_modifiers.contains(Modifier::Super));
    let mods = ModifiersState { shift: false, ctrl: true, alt: false, logo: false };
    window.handle_keyboard_input(ElementState::Pressed, Some(Key::Other(1)), true, mods);
    assert_eq!(window.current_state().key_modifiers, KeyModifiers::single(Modifier::Control));
}

#[test]
fn key_without_a_logical_key_drops_the_deferred_key() {
    let mut window = window_with_density(1, 1);
    window.handle_keyboard_input(ElementState::Pressed, Some(Key::Other(65)), true, no_mods());
    window.handle_keyboard_input(ElementState::Pressed, None, true, no_mods());
    assert!(!window.has_events());
    assert_eq!(window.current_state().last_pressed_key, None);
    window.handle_received_character('a', Some(Key::Other(65)));
    assert!(!window.has_events());
}

#[test]
fn toggling_one_modifier_leaves_the_others() {
    let mut window = window_with_density(1, 1);
    window.toggle_modifier(Modifier::Alt, true);
    window.toggle_modifier(Modifier::Shift, true);
    window.toggle_modifier(Modifier::Alt, false);
    let mods = window.current_state().key_modifiers;
    assert_eq!(mods, KeyModifiers { control: false, shift: true, alt: false, logo: false });
    assert!(mods.same(&KeyModifiers::single(Modifier::Shift)));
    assert_eq!(mods.without(Modifier::Shift), KeyModifiers::empty());
}

#[test]
fn resize_is_reported_once() {
    let mut window = window_with_density(1, 1);
    let size = Size { width: 1024, height: 768 };
    window.handle_event(PlatformEvent::Resized { size });
    window.handle_event(PlatformEvent::Resized { size });
    assert_eq!(window.get_events(), vec![WindowEvent::Resize]);
    assert_eq!(window.current_state().inner_size, size);
    assert_eq!(window.page_height(), 768);
}

#[test]
fn resize_to_the_same_size_is_silent() {
    let mut window = window_with_density(1, 1);
    window.handle_event(PlatformEvent::Resized { size: Size { width: 800, height: 600 } });
    assert!(!window.has_events());
}

#[test]
fn suspend_and_resume() {
    let mut window = window_with_density(1, 1);
    window.set_animation_state(AnimationState::Animating);
    assert!(window.is_animating());
    window.handle_event(PlatformEvent::Suspended(true));
    assert!(!window.has_events());
    assert!(window.current_state().suspended);
    assert!(!window.is_animating());
    window.handle_event(PlatformEvent::Suspended(false));
    assert_eq!(window.get_events(), vec![WindowEvent::Idle]);
    assert!(window.is_animating());
}

#[test]
fn window_requests_map_one_to_one() {
    let mut window = window_with_density(1, 1);
    window.handle_event(PlatformEvent::Refresh);
    window.handle_event(PlatformEvent::Awakened);
    window.handle_event(PlatformEvent::Other);
    window.handle_event(PlatformEvent::CloseRequested);
    assert_eq!(window.get_events(), vec![WindowEvent::Refresh, WindowEvent::Idle, WindowEvent::Quit]);
}

#[test]
fn draining_twice_gives_nothing() {
    let mut window = window_with_density(1, 1);
    window.handle_event(PlatformEvent::Refresh);
    assert_eq!(window.get_events().len(), 1);
    assert_eq!(window.get_events().len(), 0);
}

#[test]
fn new_window_starts_idle() {
    let window = Window::new(Size { width: 3, height: 4 }, Scale { numer: 2, denom: 1 });
    let state = window.current_state();
    assert_eq!(state.inner_size, Size { width: 3, height: 4 });
    assert_eq!(state.hidpi_factor, Scale { numer: 2, denom: 1 });
    assert_eq!(state.animation_state, AnimationState::Idle);
    assert_eq!(state.key_modifiers, KeyModifiers::empty());
    assert!(!state.fullscreen && !state.suspended);
    assert!(!window.is_animating());
    assert!(!window.has_events());
}

#[test]
fn fullscreen_reports_a_change_only() {
    let mut window = window_with_density(1, 1);
    assert!(!window.set_fullscreen(false));
    assert!(window.set_fullscreen(true));
    assert!(!window.set_fullscreen(true));
    assert!(window.current_state().fullscreen);
    assert!(window.set_fullscreen(false));
}

#[test]
fn density_can_change() {
    let mut window = window_with_density(1, 1);
    window.set_hidpi_factor(Scale { numer: 2, denom: 1 });
    let from = Point { x: 0, y: 0 };
    let to = Point { x: 0, y: 19 };
    let events = press_and_release(&mut window, PlatformButton::Left, from, to);
    assert_eq!(events, vec![down(from), up(to), click(to)]);
}
