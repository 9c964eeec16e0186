use exposed::error::WindowError;
use exposed::events::{Event, Key, MouseButton, WHEEL_DELTA};
use exposed::x11::{
    key_lookup_events, EventHandlerBuilder, WindowBuilder, X11EventData, X11Query, X11Session,
};

const ATOM: u64 = 4242;

fn built_session() -> (X11Session, exposed::x11::EventHandler) {
    let mut session = X11Session::new();
    let handler = EventHandlerBuilder::new().build(&mut session, ATOM, true).unwrap();
    (session, handler)
}

#[test]
fn close_protocol_matches_the_atom() {
    let (mut session, mut handler) = built_session();
    let window = WindowBuilder::new().build(&mut session).unwrap();

    handler.post(X11EventData::ClientMessage { window: window.window, format: 32, data0: ATOM as i64 });
    assert_eq!(handler.wait(), 1);
    let d = handler.dispatch(&session);
    assert_eq!(d.events, vec![Event::CloseRequested]);
    assert_eq!(d.query, X11Query::Nothing);

    // Another atom, or another format, is not a close request.
    handler.post(X11EventData::ClientMessage { window: window.window, format: 32, data0: 7 });
    handler.wait();
    assert!(handler.dispatch(&session).events.is_empty());
    handler.post(X11EventData::ClientMessage { window: window.window, format: 8, data0: ATOM as i64 });
    handler.wait();
    assert!(handler.dispatch(&session).events.is_empty());
}

#[test]
fn wheel_buttons_normalize() {
    let (mut session, mut handler) = built_session();
    let window = WindowBuilder::new().build(&mut session).unwrap();

    handler.post(X11EventData::ButtonPress { window: window.window, button: 4 });
    handler.wait();
    let d = handler.dispatch(&session);
    assert_eq!(d.events, vec![Event::MouseWheel { delta_x: 0, delta_y: WHEEL_DELTA }]);

    handler.post(X11EventData::ButtonPress { window: window.window, button: 5 });
    handler.wait();
    let d = handler.dispatch(&session);
    assert_eq!(d.events, vec![Event::MouseWheel { delta_x: 0, delta_y: -WHEEL_DELTA }]);

    // Releases of the wheel buttons carry no second wheel event.
    handler.post(X11EventData::ButtonRelease { window: window.window, button: 4 });
    handler.wait();
    assert!(handler.dispatch(&session).events.is_empty());

    handler.post(X11EventData::ButtonPress { window: window.window, button: 1 });
    handler.wait();
    let d = handler.dispatch(&session);
    assert_eq!(d.events, vec![Event::MouseButtonDown { button: MouseButton(1) }]);
}

#[test]
fn destroy_unregisters_the_window() {
    let (mut session, mut handler) = built_session();
    let mut window = WindowBuilder::new().build(&mut session).unwrap();

    // While registered, a key press asks for an input-method lookup.
    handler.post(X11EventData::KeyPress { window: window.window });
    handler.wait();
    let d = handler.dispatch(&session);
    assert!(d.events.is_empty());
    assert_eq!(
        d.query,
        X11Query::LookupKey { window: window.window, input_context: 1, down: true }
    );

    let id = window.window;
    window.destroy(&mut session).unwrap();

    // After destroy, the same window id is a silent skip, not a crash.
    handler.post(X11EventData::KeyPress { window: id });
    handler.wait();
    let d = handler.dispatch(&session);
    assert!(d.events.is_empty());
    assert_eq!(d.query, X11Query::Nothing);
}

#[test]
fn second_window_and_second_handler_are_refused() {
    let (mut session, _handler) = built_session();
    let builder = WindowBuilder::new();
    let _first = builder.build(&mut session).unwrap();
    assert_eq!(builder.build(&mut session), Err(WindowError::WindowExists));
    assert!(matches!(
        EventHandlerBuilder::new().build(&mut session, ATOM, true),
        Err(WindowError::HandlerExists)
    ));
}

#[test]
fn configure_notify_reports_size_and_position() {
    let (mut session, mut handler) = built_session();
    let window = WindowBuilder::new().with_size(640, 480).build(&mut session).unwrap();

    handler.post(X11EventData::ConfigureNotify {
        window: window.window,
        x: 12,
        y: 34,
        width: 640,
        height: 480,
    });
    handler.wait();
    let d = handler.dispatch(&session);
    assert_eq!(
        d.events,
        vec![Event::Resized { width: 640, height: 480 }, Event::Moved { x: 12, y: 34 }]
    );
}

#[test]
fn crossing_and_motion_events() {
    let (mut session, mut handler) = built_session();
    let window = WindowBuilder::new().build(&mut session).unwrap();

    handler.post(X11EventData::EnterNotify { window: window.window });
    handler.post(X11EventData::MotionNotify { window: window.window, x: 3, y: 9 });
    handler.post(X11EventData::LeaveNotify { window: window.window });

    handler.wait();
    assert_eq!(handler.dispatch(&session).events, vec![Event::CursorEntered]);
    handler.wait();
    assert_eq!(handler.dispatch(&session).events, vec![Event::CursorMoved { x: 3, y: 9 }]);
    handler.wait();
    assert_eq!(handler.dispatch(&session).events, vec![Event::CursorLeft]);
    assert_eq!(handler.poll(), 0);
}

#[test]
fn handler_teardown_reopens_the_session() {
    let (mut session, mut handler) = built_session();
    handler.destroy(&mut session).unwrap();
    assert!(EventHandlerBuilder::new().build(&mut session, ATOM, true).is_ok());
}

#[test]
fn key_lookup_builds_key_and_text_events() {
    let events = key_lookup_events(true, true, 0x61, 38, true, &vec!['a', 'b']);
    assert_eq!(
        events,
        vec![
            Event::KeyDown { key: Key(0x61), scancode: 38 },
            Event::ReceivedCharacter { character: 'a' },
            Event::ReceivedCharacter { character: 'b' },
        ]
    );

    // A release reports the key alone.
    let events = key_lookup_events(false, true, 0x61, 38, true, &vec!['a']);
    assert_eq!(events, vec![Event::KeyUp { key: Key(0x61), scancode: 38 }]);

    // No keysym, no characters: nothing.
    let events = key_lookup_events(true, false, 0, 0, false, &vec![]);
    assert!(events.is_empty());
}
