use servo_gui::browser::{
    file_picker, remap_key, single_file_reply, window_title, Browser, LoadingState,
};
use servo_gui::embedder::{
    CursorKind, EmbedderMsg, FilePicker, FilterPattern, HostRequest, MouseCursor,
};
use servo_gui::events::{BrowserId, ScrollLocation, TouchEventType, WindowEvent};
use servo_gui::geometry::{Point, Scale, Size, Vector};
use servo_gui::keys::{Key, KeyModifiers, KeyState, Modifier};
use servo_gui::window::Window;

fn window() -> Window {
    Window::new(Size { width: 800, height: 600 }, Scale { numer: 1, denom: 1 })
}

fn id(index: u32) -> BrowserId {
    BrowserId { namespace_id: 0, index }
}

fn scroll(x: i64, y: i64) -> Option<WindowEvent> {
    Some(WindowEvent::Scroll(
        ScrollLocation::Delta(Vector { x: x * 64, y: y * 64 }),
        Point { x: 0, y: 0 },
        TouchEventType::Move,
    ))
}

fn ctrl() -> KeyModifiers {
    KeyModifiers::single(Modifier::Control)
}

fn remap(ch: Option<char>, key: Key, state: KeyState, mods: KeyModifiers) -> Option<WindowEvent> {
    remap_key(Modifier::Control, 600, ch, key, state, mods)
}

#[test]
fn closing_the_only_browser_quits() {
    let mut w = window();
    let mut browser = Browser::new(Modifier::Control, false);
    browser.handle_servo_event(&mut w, None, EmbedderMsg::BrowserCreated(id(1)));
    assert_eq!(browser.browser_count(), 1);
    assert_eq!(browser.get_events(), vec![WindowEvent::SelectBrowser(id(1))]);
    let request = browser.handle_servo_event(&mut w, Some(id(1)), EmbedderMsg::CloseBrowser);
    assert_eq!(request, HostRequest::Nothing);
    assert_eq!(browser.browser_count(), 0);
    assert_eq!(browser.get_events(), vec![WindowEvent::Quit]);
}

#[test]
fn closing_one_of_two_browsers_selects_the_other() {
    let mut w = window();
    let mut browser = Browser::new(Modifier::Control, false);
    browser.handle_servo_event(&mut w, None, EmbedderMsg::BrowserCreated(id(1)));
    browser.handle_servo_event(&mut w, None, EmbedderMsg::BrowserCreated(id(2)));
    assert_eq!(browser.browser_id(), Some(id(1)));
    assert_eq!(
        browser.get_events(),
        vec![WindowEvent::SelectBrowser(id(1)), WindowEvent::SelectBrowser(id(2))]
    );
    browser.handle_servo_event(&mut w, None, EmbedderMsg::CloseBrowser);
    assert_eq!(browser.browser_count(), 1);
    assert_eq!(browser.browser_id(), Some(id(1)));
    assert_eq!(browser.get_events(), vec![WindowEvent::SelectBrowser(id(1))]);
}

#[test]
fn closing_without_a_browser_quits() {
    let mut w = window();
    let mut browser = Browser::new(Modifier::Control, false);
    browser.handle_servo_event(&mut w, None, EmbedderMsg::CloseBrowser);
    assert_eq!(browser.browser_count(), 0);
    assert_eq!(browser.browser_id(), None);
    assert_eq!(browser.get_events(), vec![WindowEvent::Quit]);
}

#[test]
fn closing_the_top_of_three_selects_the_second() {
    let mut w = window();
    let mut browser = Browser::new(Modifier::Control, false);
    for index in 1..4 {
        browser.handle_servo_event(&mut w, None, EmbedderMsg::BrowserCreated(id(index)));
    }
    let _ = browser.get_events();
    browser.handle_servo_event(&mut w, None, EmbedderMsg::CloseBrowser);
    assert_eq!(browser.browser_id(), Some(id(2)));
    assert_eq!(browser.get_events(), vec![WindowEvent::SelectBrowser(id(2))]);
}

#[test]
fn title_is_shown_with_its_suffix() {
    assert_eq!(window_title(&Some(String::from("Hello"))), "Hello - Servo");
    assert_eq!(window_title(&Some(String::new())), "Untitled - Servo");
    assert_eq!(window_title(&None), "Untitled - Servo");
}

#[test]
fn title_change_asks_for_the_window_title() {
    let mut w = window();
    let mut browser = Browser::new(Modifier::Control, false);
    let request = browser.handle_servo_event(
        &mut w,
        Some(id(1)),
        EmbedderMsg::ChangePageTitle(Some(String::from("News"))),
    );
    assert_eq!(request, HostRequest::SetTitle(String::from("News - Servo")));
    let request = browser.handle_servo_event(&mut w, Some(id(1)), EmbedderMsg::ChangePageTitle(None));
    assert_eq!(request, HostRequest::SetTitle(String::from("Untitled - Servo")));
    assert_eq!(browser.get_events(), Vec::<WindowEvent>::new());
}

#[test]
fn permissions_are_denied() {
    let mut w = window();
    let mut browser = Browser::new(Modifier::Control, false);
    assert_eq!(
        browser.handle_servo_event(&mut w, Some(id(1)), EmbedderMsg::AllowUnload),
        HostRequest::Reply(false)
    );
    assert_eq!(
        browser.handle_servo_event(
            &mut w,
            None,
            EmbedderMsg::AllowNavigation(String::from("https://example.org/"))
        ),
        HostRequest::Reply(false)
    );
    assert_eq!(
        browser.handle_servo_event(&mut w, Some(id(2)), EmbedderMsg::AllowOpeningBrowser),
        HostRequest::Reply(false)
    );
    assert_eq!(browser.get_events(), Vec::<WindowEvent>::new());
}

#[test]
fn files_are_not_chosen_without_a_user() {
    let mut w = window();
    let mut browser = Browser::new(Modifier::Control, true);
    let patterns = vec![FilterPattern(String::from("png"))];
    assert_eq!(
        browser.handle_servo_event(&mut w, Some(id(4)), EmbedderMsg::SelectFiles(patterns, true)),
        HostRequest::ReplyNoFiles(Some(id(4)))
    );
    assert_eq!(
        browser.handle_servo_event(&mut w, None, EmbedderMsg::SelectFiles(Vec::new(), false)),
        HostRequest::ReplyNoFiles(None)
    );
}

#[test]
fn files_are_chosen_in_a_picker() {
    let mut w = window();
    let mut browser = Browser::new(Modifier::Control, false);
    let patterns = vec![FilterPattern(String::from("png")), FilterPattern(String::from("jpeg"))];
    assert_eq!(
        browser.handle_servo_event(&mut w, Some(id(6)), EmbedderMsg::SelectFiles(patterns, false)),
        HostRequest::SelectFiles(
            Some(id(6)),
            FilePicker {
                name: String::from("Pick a file"),
                filters: vec![String::from("*.png"), String::from("*.jpeg")],
                multiple: false,
            }
        )
    );
}

#[test]
fn picker_for_several_files() {
    let picker = file_picker(&Vec::new(), true);
    assert_eq!(picker.name, "Pick files");
    assert!(picker.filters.is_empty());
    assert!(picker.multiple);
}

#[test]
fn one_chosen_file_is_a_list_of_one() {
    assert_eq!(single_file_reply(None), None);
    assert_eq!(
        single_file_reply(Some(String::from("/tmp/a.txt"))),
        Some(vec![String::from("/tmp/a.txt")])
    );
}

#[test]
fn alert_is_shown_under_its_browser() {
    let mut w = window();
    let mut browser = Browser::new(Modifier::Control, false);
    let request = browser.handle_servo_event(&mut w, Some(id(3)), EmbedderMsg::Alert(String::from("Hi")));
    assert_eq!(request, HostRequest::Alert(Some(id(3)), String::from("Hi")));
    assert_eq!(browser.get_events(), Vec::<WindowEvent>::new());
}

#[test]
fn failed_replies_are_reported() {
    let mut browser = Browser::new(Modifier::Control, false);
    browser.alert_reply_failed(Some(id(3)), "peer is gone");
    browser.select_files_reply_failed(Some(id(7)), "closed");
    browser.select_files_reply_failed(None, "lost");
    browser.alert_reply_failed(None, "gone");
    assert_eq!(
        browser.get_events(),
        vec![
            WindowEvent::SendError(Some(id(3)), String::from("Failed to send Alert response: peer is gone")),
            WindowEvent::SendError(Some(id(7)), String::from("Failed to send SelectFiles response: closed")),
            WindowEvent::SendError(None, String::from("Failed to send SelectFiles response: lost")),
            WindowEvent::SendError(None, String::from("Failed to send Alert response: gone")),
        ]
    );
}

#[test]
fn failed_file_reply_is_reported_under_the_browser_of_the_request() {
    let mut w = window();
    let mut browser = Browser::new(Modifier::Control, true);
    let request = browser.handle_servo_event(&mut w, Some(id(8)), EmbedderMsg::SelectFiles(Vec::new(), true));
    match request {
        HostRequest::ReplyNoFiles(browser_id) => browser.select_files_reply_failed(browser_id, "receiver is gone"),
        other => panic!("unexpected request: {:?}", other),
    }
    assert_eq!(
        browser.get_events(),
        vec![WindowEvent::SendError(
            Some(id(8)),
            String::from("Failed to send SelectFiles response: receiver is gone")
        )]
    );
}

#[test]
fn shutdown_sets_the_flag_and_handling_goes_on() {
    let mut w = window();
    let mut browser = Browser::new(Modifier::Control, false);
    assert!(!browser.shutdown_requested());
    let requests = browser.handle_servo_events(
        &mut w,
        vec![
            (None, EmbedderMsg::Shutdown),
            (None, EmbedderMsg::BrowserCreated(id(5))),
            (None, EmbedderMsg::AllowUnload),
        ],
    );
    assert!(browser.shutdown_requested());
    assert_eq!(requests, vec![HostRequest::Nothing, HostRequest::Nothing, HostRequest::Reply(false)]);
    assert_eq!(browser.get_events(), vec![WindowEvent::SelectBrowser(id(5))]);
    browser.handle_servo_event(&mut w, None, EmbedderMsg::HideIME);
    assert!(browser.shutdown_requested());
}

#[test]
fn batch_answers_each_notification_in_order() {
    let mut w = window();
    let mut browser = Browser::new(Modifier::Control, false);
    let requests = browser.handle_servo_events(
        &mut w,
        vec![
            (Some(id(1)), EmbedderMsg::SetFullscreenState(true)),
            (Some(id(1)), EmbedderMsg::SetFullscreenState(true)),
            (Some(id(1)), EmbedderMsg::MoveTo(Point { x: 5, y: -6 })),
            (Some(id(1)), EmbedderMsg::ResizeTo(Size { width: 7, height: 8 })),
            (Some(id(1)), EmbedderMsg::SetCursor(CursorKind::Pointer)),
            (Some(id(1)), EmbedderMsg::SetFullscreenState(false)),
        ],
    );
    assert_eq!(
        requests,
        vec![
            HostRequest::SetFullscreen(true),
            HostRequest::Nothing,
            HostRequest::SetPosition(Point { x: 5, y: -6 }),
            HostRequest::SetInnerSize(Size { width: 7, height: 8 }),
            HostRequest::SetCursor(MouseCursor::Hand),
            HostRequest::SetFullscreen(false),
        ]
    );
    assert!(!w.current_state().fullscreen);
    assert_eq!(browser.handle_servo_events(&mut w, Vec::new()), Vec::<HostRequest>::new());
}

#[test]
fn informational_notifications_ask_nothing() {
    let mut w = window();
    let mut browser = Browser::new(Modifier::Control, false);
    let quiet = vec![
        EmbedderMsg::Status(Some(String::from("loading"))),
        EmbedderMsg::NewFavicon(String::from("https://example.org/icon.png")),
        EmbedderMsg::HistoryChanged(vec![String::from("a")], 0),
        EmbedderMsg::Panic(String::from("oops"), None),
        EmbedderMsg::ShowIME,
        EmbedderMsg::HideIME,
    ];
    for msg in quiet {
        assert_eq!(browser.handle_servo_event(&mut w, None, msg), HostRequest::Nothing);
    }
    assert_eq!(browser.get_events(), Vec::<WindowEvent>::new());
    assert_eq!(browser.status(), Some(&String::from("loading")));
    assert_eq!(browser.favicon(), Some(&String::from("https://example.org/icon.png")));
    assert_eq!(browser.title(), None);
    browser.handle_servo_event(&mut w, None, EmbedderMsg::ChangePageTitle(Some(String::new())));
    assert_eq!(browser.title(), Some(&String::new()));
    browser.handle_servo_event(&mut w, None, EmbedderMsg::Status(None));
    assert_eq!(browser.status(), None);
    assert_eq!(browser.loading_state(), None);
    browser.handle_servo_event(&mut w, None, EmbedderMsg::LoadStart);
    assert_eq!(browser.loading_state(), Some(LoadingState::Connecting));
    browser.handle_servo_event(&mut w, None, EmbedderMsg::HeadParsed);
    assert_eq!(browser.loading_state(), Some(LoadingState::Loading));
    browser.handle_servo_event(&mut w, None, EmbedderMsg::LoadComplete);
    assert_eq!(browser.loading_state(), Some(LoadingState::Loaded));
}

#[test]
fn window_events_pass_through_in_order() {
    let mut browser = Browser::new(Modifier::Control, false);
    browser.handle_window_events(vec![WindowEvent::Refresh]);
    browser.handle_window_events(vec![
        WindowEvent::KeyEvent(Some('a'), Key::Other(65), KeyState::Pressed, KeyModifiers::empty()),
        WindowEvent::Quit,
    ]);
    assert_eq!(
        browser.get_events(),
        vec![
            WindowEvent::Refresh,
            WindowEvent::KeyEvent(Some('a'), Key::Other(65), KeyState::Pressed, KeyModifiers::empty()),
            WindowEvent::Quit,
        ]
    );
    assert_eq!(browser.get_events(), Vec::<WindowEvent>::new());
}

#[test]
fn key_events_from_the_engine_are_remapped() {
    let mut w = Window::new(Size { width: 800, height: 1000 }, Scale { numer: 1, denom: 1 });
    let mut browser = Browser::new(Modifier::Super, false);
    browser.handle_servo_event(
        &mut w,
        None,
        EmbedderMsg::KeyEvent(None, Key::PageDown, KeyState::Released, KeyModifiers::empty()),
    );
    browser.handle_servo_event(
        &mut w,
        None,
        EmbedderMsg::KeyEvent(Some('0'), Key::Other(48), KeyState::Released, KeyModifiers::single(Modifier::Super)),
    );
    browser.handle_servo_event(
        &mut w,
        None,
        EmbedderMsg::KeyEvent(Some('0'), Key::Other(48), KeyState::Released, ctrl()),
    );
    assert_eq!(
        browser.get_events(),
        vec![scroll(0, 76 - 1000).unwrap(), WindowEvent::ResetZoom]
    );
}

#[test]
fn pressed_keys_are_never_remapped() {
    assert_eq!(remap(Some('+'), Key::Other(0), KeyState::Pressed, ctrl()), None);
    assert_eq!(remap(None, Key::PageUp, KeyState::Pressed, KeyModifiers::empty()), None);
}

#[test]
fn repeated_keys_are_never_remapped() {
    assert_eq!(remap(None, Key::Up, KeyState::Repeated, KeyModifiers::empty()), None);
    assert_eq!(remap(Some('+'), Key::Other(0), KeyState::Repeated, ctrl()), None);
    assert_eq!(remap(Some('0'), Key::Other(0), KeyState::Repeated, ctrl()), None);
    assert_eq!(remap(None, Key::PageDown, KeyState::Repeated, KeyModifiers::empty()), None);
}

#[test]
fn held_key_scrolls_once_on_release() {
    let mut w = window();
    let mut browser = Browser::new(Modifier::Control, false);
    for state in vec![KeyState::Pressed, KeyState::Repeated, KeyState::Repeated, KeyState::Released] {
        browser.handle_servo_event(
            &mut w,
            None,
            EmbedderMsg::KeyEvent(None, Key::Down, state, KeyModifiers::empty()),
        );
    }
    assert_eq!(browser.get_events(), vec![scroll(0, -114).unwrap()]);
}

#[test]
fn plus_zooms_in() {
    let zoom = Scale { numer: 11, denom: 10 };
    assert_eq!(remap(Some('+'), Key::Other(0), KeyState::Released, ctrl()), Some(WindowEvent::Zoom(zoom)));
    assert_eq!(
        remap(Some('+'), Key::Other(0), KeyState::Released, ctrl().with(Modifier::Shift)),
        Some(WindowEvent::Zoom(zoom))
    );
    assert_eq!(
        remap(Some('+'), Key::Other(0), KeyState::Released, ctrl().with(Modifier::Alt)),
        Some(WindowEvent::PinchZoom(zoom))
    );
    assert_eq!(
        remap(Some('+'), Key::Other(0), KeyState::Released, ctrl().with(Modifier::Alt).with(Modifier::Shift)),
        Some(WindowEvent::PinchZoom(zoom))
    );
    assert_eq!(remap(Some('+'), Key::Other(0), KeyState::Released, KeyModifiers::empty()), None);
    assert_eq!(
        remap(Some('+'), Key::Other(0), KeyState::Released, ctrl().with(Modifier::Super)),
        None
    );
}

#[test]
fn minus_zooms_out() {
    let zoom = Scale { numer: 10, denom: 11 };
    assert_eq!(remap(Some('-'), Key::Other(0), KeyState::Released, ctrl()), Some(WindowEvent::Zoom(zoom)));
    assert_eq!(
        remap(Some('-'), Key::Other(0), KeyState::Released, ctrl().with(Modifier::Alt)),
        Some(WindowEvent::PinchZoom(zoom))
    );
    assert_eq!(
        remap(Some('-'), Key::Other(0), KeyState::Released, ctrl().with(Modifier::Shift)),
        None
    );
    assert_eq!(remap(Some('-'), Key::Other(0), KeyState::Released, KeyModifiers::empty()), None);
}

#[test]
fn zero_resets_the_zoom() {
    assert_eq!(remap(Some('0'), Key::Other(0), KeyState::Released, ctrl()), Some(WindowEvent::ResetZoom));
    assert_eq!(
        remap(Some('0'), Key::Other(0), KeyState::Released, ctrl().with(Modifier::Alt)),
        None
    );
    assert_eq!(
        remap_key(Modifier::Super, 600, Some('0'), Key::Other(0), KeyState::Released, ctrl()),
        None
    );
}

#[test]
fn page_keys_scroll_by_a_page_less_two_lines() {
    assert_eq!(remap(None, Key::PageDown, KeyState::Released, KeyModifiers::empty()), scroll(0, -524));
    assert_eq!(remap(None, Key::PageUp, KeyState::Released, KeyModifiers::empty()), scroll(0, 524));
    assert_eq!(
        remap_key(Modifier::Control, u32::MAX, None, Key::PageDown, KeyState::Released, KeyModifiers::empty()),
        scroll(0, 76 - u32::MAX as i64)
    );
    assert_eq!(
        remap_key(Modifier::Control, 0, None, Key::PageUp, KeyState::Released, KeyModifiers::empty()),
        scroll(0, -76)
    );
}

#[test]
fn home_and_end_go_to_the_ends() {
    let at = Point { x: 0, y: 0 };
    assert_eq!(
        remap(None, Key::Home, KeyState::Released, KeyModifiers::empty()),
        Some(WindowEvent::Scroll(ScrollLocation::Start, at, TouchEventType::Move))
    );
    assert_eq!(
        remap(None, Key::End, KeyState::Released, KeyModifiers::empty()),
        Some(WindowEvent::Scroll(ScrollLocation::End, at, TouchEventType::Move))
    );
}

#[test]
fn key_scrolls_are_in_scroll_units() {
    assert_eq!(
        remap(None, Key::Down, KeyState::Released, KeyModifiers::empty()),
        Some(WindowEvent::Scroll(
            ScrollLocation::Delta(Vector { x: 0, y: -7296 }),
            Point { x: 0, y: 0 },
            TouchEventType::Move,
        ))
    );
}

#[test]
fn arrows_scroll_by_three_lines() {
    let none = KeyModifiers::empty();
    assert_eq!(remap(None, Key::Up, KeyState::Released, none), scroll(0, 114));
    assert_eq!(remap(None, Key::Down, KeyState::Released, none), scroll(0, -114));
    assert_eq!(remap(None, Key::Left, KeyState::Released, none), scroll(114, 0));
    assert_eq!(remap(None, Key::Right, KeyState::Released, none), scroll(-114, 0));
}

#[test]
fn navigation_keys_need_bare_hands() {
    assert_eq!(remap(None, Key::Up, KeyState::Released, ctrl()), None);
    assert_eq!(remap(Some('x'), Key::Up, KeyState::Released, KeyModifiers::empty()), None);
    assert_eq!(remap(None, Key::Other(9), KeyState::Released, KeyModifiers::empty()), None);
}

#[test]
fn bluetooth_device_is_not_chosen() {
    let mut w = window();
    let mut browser = Browser::new(Modifier::Control, false);
    assert_eq!(
        browser.handle_servo_event(
            &mut w,
            None,
            EmbedderMsg::GetSelectedBluetoothDevice(vec![String::from("dev")])
        ),
        HostRequest::ReplyNoDevice
    );
    assert_eq!(browser.get_events(), Vec::<WindowEvent>::new());
}

#[test]
fn cursors_map_by_name() {
    let w = window();
    assert_eq!(w.set_cursor(CursorKind::Auto), MouseCursor::Default);
    assert_eq!(w.set_cursor(CursorKind::Default), MouseCursor::Default);
    assert_eq!(w.set_cursor(CursorKind::Other), MouseCursor::Default);
    assert_eq!(w.set_cursor(CursorKind::Pointer), MouseCursor::Hand);
    assert_eq!(w.set_cursor(CursorKind::Text), MouseCursor::Text);
    assert_eq!(w.set_cursor(CursorKind::NwseResize), MouseCursor::NwseResize);
    assert_eq!(w.set_cursor(CursorKind::ZoomOut), MouseCursor::ZoomOut);
    assert_eq!(w.set_cursor(CursorKind::Grabbing), MouseCursor::Grabbing);
}
