use exposed::error::WindowError;
use exposed::events::{Event, Key, MouseButton, WHEEL_DELTA};
use exposed::win32::{
    file_received_event, get_x_lparam, get_y_lparam, hiword, lobyte, loword, make_word,
    raw_mouse_motion_event, utf8_to_utf16_null, window_pos_event, EventHandlerBuilder,
    LresultAction, OsQuery, Win32Msg, Win32Session, WindowBuilder, WM_CHAR, WM_CLOSE,
    WM_ERASEBKGND, WM_KEYDOWN, WM_KEYUP, WM_MOUSEHWHEEL, WM_MOUSEMOVE, WM_MOUSEWHEEL, WM_SIZE,
};

fn msg(message: u32, wparam: u64, lparam: i64) -> Win32Msg {
    Win32Msg { hwnd: 1, message, wparam, lparam }
}

#[test]
fn word_helpers() {
    assert_eq!(loword(0x12345678), 0x5678);
    assert_eq!(hiword(0x12345678), 0x1234);
    assert_eq!(lobyte(0x12345678), 0x78);
    assert_eq!(make_word(0x34, 0x12), 0x1234);
    assert_eq!(get_x_lparam(0x0005FFF6), -10);
    assert_eq!(get_y_lparam(0x0005FFF6), 5);
}

#[test]
fn utf16_encoding() {
    assert_eq!(utf8_to_utf16_null("ab"), vec![97, 98, 0]);
    assert_eq!(utf8_to_utf16_null(""), vec![0]);
    assert_eq!(utf8_to_utf16_null("\u{1D11E}"), vec![0xD834, 0xDD1E, 0]);
}

#[test]
fn close_decodes_to_exactly_one_close_requested() {
    let mut session = Win32Session::new();
    let mut handler = EventHandlerBuilder::new().build(&mut session, true).unwrap();
    handler.post(msg(WM_CLOSE, 0, 0));
    assert_eq!(handler.poll(), 1);
    let d = handler.dispatch(&mut session);
    assert_eq!(d.events, vec![Event::CloseRequested]);
    assert_eq!(d.query, OsQuery::Nothing);
    assert_eq!(d.action, LresultAction::Value(0));
}

#[test]
fn wheel_up_and_down_normalize() {
    let mut session = Win32Session::new();
    let mut handler = EventHandlerBuilder::new().build(&mut session, true).unwrap();

    let up_wparam = 120u64 << 16;
    handler.post(msg(WM_MOUSEWHEEL, up_wparam, 0));
    assert_eq!(handler.wait(), 1);
    let d = handler.dispatch(&mut session);
    assert_eq!(d.events, vec![Event::MouseWheel { delta_x: 0, delta_y: WHEEL_DELTA }]);

    let down_wparam = ((-120i16) as u16 as u64) << 16;
    handler.post(msg(WM_MOUSEWHEEL, down_wparam, 0));
    assert_eq!(handler.wait(), 1);
    let d = handler.dispatch(&mut session);
    assert_eq!(d.events, vec![Event::MouseWheel { delta_x: 0, delta_y: -WHEEL_DELTA }]);

    handler.post(msg(WM_MOUSEHWHEEL, up_wparam, 0));
    assert_eq!(handler.wait(), 1);
    let d = handler.dispatch(&mut session);
    assert_eq!(d.events, vec![Event::MouseWheel { delta_x: -WHEEL_DELTA, delta_y: 0 }]);
}

#[test]
fn resize_scenario_delivers_one_resized() {
    let mut session = Win32Session::new();
    let mut handler = EventHandlerBuilder::new().build(&mut session, true).unwrap();
    let window = WindowBuilder::new()
        .with_position(0, 0)
        .with_size(800, 600)
        .build(&mut session)
        .unwrap();
    assert_eq!(window.hwnd, 1);

    let lparam = 1024i64 | (768i64 << 16);
    handler.post(msg(WM_SIZE, 0, lparam));
    assert_eq!(handler.poll(), 1);
    let d = handler.dispatch(&mut session);
    assert_eq!(d.events, vec![Event::Resized { width: 1024, height: 768 }]);
    assert_eq!(handler.poll(), 0);
}

#[test]
fn second_window_is_refused() {
    let mut session = Win32Session::new();
    let _handler = EventHandlerBuilder::new().build(&mut session, true).unwrap();
    let builder = WindowBuilder::new();
    let first = builder.build(&mut session).unwrap();
    let second = builder.build(&mut session);
    assert_eq!(second, Err(WindowError::WindowExists));
    // The first window is untouched and a later attempt still fails.
    assert_eq!(first.hwnd, 1);
    assert_eq!(builder.build(&mut session), Err(WindowError::WindowExists));
}

#[test]
fn second_event_handler_is_refused() {
    let mut session = Win32Session::new();
    let builder = EventHandlerBuilder::new();
    let _handler = builder.build(&mut session, true).unwrap();
    assert!(matches!(
        builder.build(&mut session, true),
        Err(WindowError::HandlerExists)
    ));
}

#[test]
fn failed_create_rolls_back_the_class() {
    let mut session = Win32Session::new();
    let builder = EventHandlerBuilder::new();
    assert!(matches!(
        builder.build(&mut session, false),
        Err(WindowError::CreateFailed)
    ));
    // The registration was rolled back, so a build can succeed now.
    assert!(builder.build(&mut session, true).is_ok());
}

#[test]
fn key_messages_decode_or_ask_for_remap() {
    let mut session = Win32Session::new();
    let mut handler = EventHandlerBuilder::new().build(&mut session, true).unwrap();

    // A plain key: virtual key 65 ('A'), scan code 30.
    handler.post(msg(WM_KEYDOWN, 65, 30i64 << 16));
    handler.wait();
    let d = handler.dispatch(&mut session);
    assert_eq!(d.events, vec![Event::KeyDown { key: Key(65), scancode: 30 }]);

    handler.post(msg(WM_KEYUP, 65, 30i64 << 16));
    handler.wait();
    let d = handler.dispatch(&mut session);
    assert_eq!(d.events, vec![Event::KeyUp { key: Key(65), scancode: 30 }]);

    // An extended key gets the 0xE0 prefix in its scan code.
    handler.post(msg(WM_KEYDOWN, 65, (0x0100i64 | 0x50) << 16));
    handler.wait();
    let d = handler.dispatch(&mut session);
    assert_eq!(d.events, vec![Event::KeyDown { key: Key(65), scancode: 0xE050 }]);

    // A modifier key needs the layout before the event can be built.
    handler.post(msg(WM_KEYDOWN, 0x10, 0x2Ai64 << 16));
    handler.wait();
    let d = handler.dispatch(&mut session);
    assert!(d.events.is_empty());
    assert_eq!(d.query, OsQuery::RemapModifierKey { scancode: 0x2A, down: true });
    let e = exposed::win32::finish_modifier_key(0xA0, 0x2A, true);
    assert_eq!(e, Event::KeyDown { key: Key(0xA0), scancode: 0x2A });
}

#[test]
fn character_input_pairs_surrogates() {
    let mut session = Win32Session::new();
    let mut handler = EventHandlerBuilder::new().build(&mut session, true).unwrap();

    handler.post(msg(WM_CHAR, 65, 0));
    handler.wait();
    let d = handler.dispatch(&mut session);
    assert_eq!(d.events, vec![Event::ReceivedCharacter { character: 'A' }]);

    // U+1F600 arrives as the pair 0xD83D 0xDE00 over two messages.
    handler.post(msg(WM_CHAR, 0xD83D, 0));
    handler.wait();
    let d = handler.dispatch(&mut session);
    assert!(d.events.is_empty());
    handler.post(msg(WM_CHAR, 0xDE00, 0));
    handler.wait();
    let d = handler.dispatch(&mut session);
    assert_eq!(d.events, vec![Event::ReceivedCharacter { character: '\u{1F600}' }]);

    // A lone low surrogate is malformed and dropped.
    handler.post(msg(WM_CHAR, 0xDE00, 0));
    handler.wait();
    let d = handler.dispatch(&mut session);
    assert!(d.events.is_empty());
}

#[test]
fn erase_background_and_unknown_messages() {
    let mut session = Win32Session::new();
    let mut handler = EventHandlerBuilder::new().build(&mut session, true).unwrap();

    handler.post(msg(WM_ERASEBKGND, 0, 0));
    handler.wait();
    let d = handler.dispatch(&mut session);
    assert!(d.events.is_empty());
    assert_eq!(d.action, LresultAction::Value(1));

    handler.post(msg(0x7FFF, 0, 0));
    handler.wait();
    let d = handler.dispatch(&mut session);
    assert!(d.events.is_empty());
    assert_eq!(d.action, LresultAction::Forward);
}

#[test]
fn cursor_motion_and_buttons() {
    let mut session = Win32Session::new();
    let mut handler = EventHandlerBuilder::new().build(&mut session, true).unwrap();

    handler.post(msg(WM_MOUSEMOVE, 0, 5i64 | (7i64 << 16)));
    handler.wait();
    let d = handler.dispatch(&mut session);
    assert_eq!(d.events, vec![Event::CursorMoved { x: 5, y: 7 }]);

    handler.post(msg(0x0201, 0, 0)); // left button down
    handler.wait();
    let d = handler.dispatch(&mut session);
    assert_eq!(d.events, vec![Event::MouseButtonDown { button: MouseButton::left() }]);

    handler.post(msg(0x020B, 1i64 as u64 | (2u64 << 16), 0)); // extra button 2 down
    handler.wait();
    let d = handler.dispatch(&mut session);
    assert_eq!(d.events, vec![Event::MouseButtonDown { button: MouseButton(12) }]);
}

#[test]
fn follow_up_queries_build_their_events() {
    assert_eq!(
        raw_mouse_motion_event(-3, 8),
        Event::RawMouseMotion { delta_x: -3, delta_y: 8 }
    );
    assert_eq!(
        window_pos_event(0, 40, 50),
        Some(Event::Moved { x: 40, y: 50 })
    );
    // The no-move flag suppresses the event.
    assert_eq!(window_pos_event(0x0002, 40, 50), None);
    assert_eq!(
        file_received_event("a.txt".to_string()),
        Event::FileReceived { path: "a.txt".to_string() }
    );
}

#[test]
fn window_and_handler_teardown_reopen_the_session() {
    let mut session = Win32Session::new();
    let builder = EventHandlerBuilder::new();
    let mut handler = builder.build(&mut session, true).unwrap();
    let mut window = WindowBuilder::new().build(&mut session).unwrap();
    assert!(WindowBuilder::new().build(&mut session).is_err());
    window.destroy(&mut session).unwrap();
    let second = WindowBuilder::new().build(&mut session).unwrap();
    assert_eq!(second.hwnd, 2);
    handler.destroy(&mut session).unwrap();
    assert!(builder.build(&mut session, true).is_ok());
}

#[test]
fn unbound_session_forwards_messages() {
    let mut session = Win32Session::new();
    let mut other = Win32Session::new();
    let mut handler = EventHandlerBuilder::new().build(&mut session, true).unwrap();
    handler.post(msg(WM_CLOSE, 0, 0));
    handler.wait();
    // Dispatching against a session with no bound application swallows
    // the message, as the window procedure does before setup finishes.
    let d = handler.dispatch(&mut other);
    assert!(d.events.is_empty());
    assert_eq!(d.action, LresultAction::Forward);
}
