//! The X11-style backend.
//!
//! X events arrive as plain decoded values and [`EventHandler::dispatch`]
//! translates them into uniform events: the close protocol compares a
//! client message against the cached delete-window atom, wheel buttons are
//! normalized to signed deltas, and key events are routed through the
//! session's window registry — a window with no registered input context
//! is skipped, never an error, since events can arrive after partial
//! teardown. The registry itself is an `intmap::IntMap` from window id to
//! input-context id, used through trusted wrappers; Xlib, the display and
//! the input method live outside the library.

use vstd::prelude::*;

use crate::error::WindowError;
use crate::events::{Event, Key, MouseButton, WHEEL_DELTA};

verus! {

/// What an `intmap::IntMap` used as the window registry holds: the map
/// from window id to input-context id.
pub uninterp spec fn window_context_entries(m: intmap::IntMap<u64, u64>) -> Map<u64, u64>;

#[verifier::external_type_specification]
#[verifier::external_body]
#[verifier::reject_recursive_types(K)]
#[verifier::reject_recursive_types(V)]
pub struct ExIntMap<K, V>(intmap::IntMap<K, V>);

/// The empty window registry.
pub open spec fn empty_registry() -> Map<u64, u64> {
    Map::empty()
}

/// Relies on `intmap::IntMap::new`: a fresh map holds nothing.
#[verifier::external_body]
fn registry_new() -> (r: intmap::IntMap<u64, u64>)
    ensures
        window_context_entries(r) == empty_registry(),
{
    intmap::IntMap::new()
}

/// Relies on `intmap::IntMap::insert`: it maps the key to the value and
/// returns what the key was mapped to before.
#[verifier::external_body]
fn registry_insert(m: &mut intmap::IntMap<u64, u64>, key: u64, value: u64) -> (previous: Option<
    u64,
>)
    ensures
        window_context_entries(*final(m)) == window_context_entries(*old(m)).insert(key, value),
        previous == (if window_context_entries(*old(m)).dom().contains(key) {
            Some(window_context_entries(*old(m))[key])
        } else {
            Option::<u64>::None
        }),
{
    m.insert(key, value)
}

/// Relies on `intmap::IntMap::remove`: it unmaps the key and returns what
/// the key was mapped to.
#[verifier::external_body]
fn registry_remove(m: &mut intmap::IntMap<u64, u64>, key: u64) -> (removed: Option<u64>)
    ensures
        window_context_entries(*final(m)) == window_context_entries(*old(m)).remove(key),
        removed == (if window_context_entries(*old(m)).dom().contains(key) {
            Some(window_context_entries(*old(m))[key])
        } else {
            Option::<u64>::None
        }),
{
    m.remove(key)
}

/// Relies on `intmap::IntMap::get`: it returns the value the key maps to.
#[verifier::external_body]
fn registry_get(m: &intmap::IntMap<u64, u64>, key: u64) -> (r: Option<u64>)
    ensures
        r == (if window_context_entries(*m).dom().contains(key) {
            Some(window_context_entries(*m)[key])
        } else {
            Option::<u64>::None
        }),
{
    m.get(key).copied()
}

/// The per-thread platform session of the X11 backend: the explicit form
/// of the thread-local display, input method, cached delete-window atom
/// and window registry.
pub struct X11Session {
    /// Whether this session's display and input method are open.
    pub handler_built: bool,
    /// Whether the session's window was handed out.
    pub window_built: bool,
    /// The cached `WM_DELETE_WINDOW` atom; a client message carrying it
    /// is a close request.
    pub wm_delete: u64,
    /// The window registry: window id to input-context id.
    pub window_map: intmap::IntMap<u64, u64>,
    /// The identifier the next window will get.
    pub next_window_id: u64,
    /// The identifier the next input context will get.
    pub next_context_id: u64,
}

impl X11Session {
    /// The registry as a map.
    pub open spec fn registry(self) -> Map<u64, u64> {
        window_context_entries(self.window_map)
    }

    /// A fresh session with nothing open.
    pub fn new() -> (s: Self)
        ensures
            !s.handler_built,
            !s.window_built,
            s.wm_delete == 0,
            s.registry() == empty_registry(),
            s.next_window_id == 1,
            s.next_context_id == 1,
    {
        X11Session {
            handler_built: false,
            window_built: false,
            wm_delete: 0,
            window_map: registry_new(),
            next_window_id: 1,
            next_context_id: 1,
        }
    }
}

/// One X event, as the pump decodes its fields into plain values.
#[derive(Clone, Copy, Debug, PartialEq, Eq, Structural)]
pub enum X11EventData {
    Expose { window: u64 },
    ConfigureNotify { window: u64, x: i32, y: i32, width: i32, height: i32 },
    FocusIn { window: u64 },
    FocusOut { window: u64 },
    KeyPress { window: u64 },
    KeyRelease { window: u64 },
    ButtonPress { window: u64, button: u32 },
    ButtonRelease { window: u64, button: u32 },
    MotionNotify { window: u64, x: i32, y: i32 },
    EnterNotify { window: u64 },
    LeaveNotify { window: u64 },
    MapNotify { window: u64 },
    UnmapNotify { window: u64 },
    VisibilityNotify { window: u64 },
    ClientMessage { window: u64, format: i32, data0: i64 },
    Other { type_code: i32 },
}

/// A follow-up the dispatcher asks of the input method: look the key
/// event up through this input context, then build the events with
/// [`key_lookup_events`].
#[derive(Clone, Copy, Debug, PartialEq, Eq, Structural)]
pub enum X11Query {
    Nothing,
    LookupKey { window: u64, input_context: u64, down: bool },
}

/// The dispatcher's verdict on one X event.
#[derive(Clone, Debug)]
pub struct X11Dispatch {
    /// The uniform events, in order.
    pub events: Vec<Event>,
    /// A follow-up query the caller must run against the input method.
    pub query: X11Query,
}

/// Everything [`EventHandler::dispatch`] promises of the decoding of one
/// X event, given the cached delete-window atom and the registry.
pub open spec fn dispatch_post(
    ev: X11EventData,
    wm_delete: u64,
    reg: Map<u64, u64>,
    d: X11Dispatch,
) -> bool {
    match ev {
        X11EventData::Expose { .. } => d.events@ =~= seq![Event::Render]
            && d.query == X11Query::Nothing,
        X11EventData::ConfigureNotify { x, y, width, height, .. } => d.events@ =~= seq![
            Event::Resized { width, height },
            Event::Moved { x, y },
        ] && d.query == X11Query::Nothing,
        X11EventData::FocusIn { .. } => d.events@ =~= seq![Event::Focused { focused: true }]
            && d.query == X11Query::Nothing,
        X11EventData::FocusOut { .. } => d.events@ =~= seq![Event::Focused { focused: false }]
            && d.query == X11Query::Nothing,
        X11EventData::KeyPress { window } => d.events@ =~= Seq::<Event>::empty() && (
        if reg.dom().contains(window) {
            d.query == (X11Query::LookupKey { window, input_context: reg[window], down: true })
        } else {
            d.query == X11Query::Nothing
        }),
        X11EventData::KeyRelease { window } => d.events@ =~= Seq::<Event>::empty() && (
        if reg.dom().contains(window) {
            d.query == (X11Query::LookupKey { window, input_context: reg[window], down: false })
        } else {
            d.query == X11Query::Nothing
        }),
        X11EventData::ButtonPress { button, .. } => d.query == X11Query::Nothing && (if button
            == 4 {
            d.events@ =~= seq![Event::MouseWheel { delta_x: 0, delta_y: WHEEL_DELTA }]
        } else if button == 5 {
            d.events@ =~= seq![
                Event::MouseWheel { delta_x: 0, delta_y: (0 - WHEEL_DELTA) as i32 },
            ]
        } else {
            d.events@ =~= seq![Event::MouseButtonDown { button: MouseButton(button) }]
        }),
        X11EventData::ButtonRelease { button, .. } => d.query == X11Query::Nothing && (if button
            == 4 || button == 5 {
            d.events@ =~= Seq::<Event>::empty()
        } else {
            d.events@ =~= seq![Event::MouseButtonRelease { button: MouseButton(button) }]
        }),
        X11EventData::MotionNotify { x, y, .. } => d.events@ =~= seq![Event::CursorMoved { x, y }]
            && d.query == X11Query::Nothing,
        X11EventData::EnterNotify { .. } => d.events@ =~= seq![Event::CursorEntered]
            && d.query == X11Query::Nothing,
        X11EventData::LeaveNotify { .. } => d.events@ =~= seq![Event::CursorLeft]
            && d.query == X11Query::Nothing,
        X11EventData::ClientMessage { format, data0, .. } => d.query == X11Query::Nothing && (
        if format == 32 && data0 == wm_delete as i64 {
            d.events@ =~= seq![Event::CloseRequested]
        } else {
            d.events@ =~= Seq::<Event>::empty()
        }),
        _ => d.events@ =~= Seq::<Event>::empty() && d.query == X11Query::Nothing,
    }
}

/// The character event of one composed character.
pub open spec fn spec_char_event(c: char) -> Event {
    Event::ReceivedCharacter { character: c }
}

/// The key and text events of one looked-up key event: the keysym's key
/// event where the lookup found a keysym, then — for presses — one
/// character event per character of the composed text.
pub fn key_lookup_events(
    down: bool,
    has_keysym: bool,
    keysym_lower: u64,
    keycode: u32,
    has_chars: bool,
    chars: &Vec<char>,
) -> (r: Vec<Event>)
    ensures
        r@ == (if has_keysym {
            if down {
                seq![Event::KeyDown { key: Key(keysym_lower), scancode: keycode }]
            } else {
                seq![Event::KeyUp { key: Key(keysym_lower), scancode: keycode }]
            }
        } else {
            Seq::<Event>::empty()
        }) + (if down && has_chars {
            chars@.map(|j: int, c: char| spec_char_event(c))
        } else {
            Seq::<Event>::empty()
        }),
{
    let mut events: Vec<Event> = Vec::new();
    if has_keysym {
        if down {
            events.push(Event::KeyDown { key: Key(keysym_lower), scancode: keycode });
        } else {
            events.push(Event::KeyUp { key: Key(keysym_lower), scancode: keycode });
        }
    }
    let ghost head = events@;
    let ghost text = chars@.map(|j: int, c: char| spec_char_event(c));
    if down && has_chars {
        let mut i: usize = 0;
        #[verifier::loop_isolation(false)]
        while i < chars.len()
            invariant
                0 <= i <= chars@.len(),
                events@ =~= head + text.take(i as int),
            decreases chars@.len() - i,
        {
            let c = chars[i];
            events.push(Event::ReceivedCharacter { character: c });
            proof {
                assert(text[i as int] == spec_char_event(chars@[i as int]));
                assert(events@ =~= head + text.take(i + 1int));
            }
            i = i + 1;
        }
        proof {
            assert(text.take(chars@.len() as int) =~= text);
            assert(events@ =~= head + text);
        }
    } else {
        proof {
            assert(events@ =~= head + Seq::<Event>::empty());
        }
    }
    events
}

/// The X11-style event handler: the event pump state. Decoded X events
/// are posted in as plain values; `poll` and `wait` move one of them into
/// the current slot, and `dispatch` decodes it.
pub struct EventHandler {
    /// Events received from the display and not yet decoded.
    pub queue: Vec<X11EventData>,
    /// The event the next dispatch will decode.
    pub current: Option<X11EventData>,
}

impl EventHandler {
    /// Receives one decoded X event into the queue.
    pub fn post(&mut self, ev: X11EventData)
        ensures
            final(self).queue@ == old(self).queue@.push(ev),
            final(self).current == old(self).current,
    {
        self.queue.push(ev);
    }

    /// Non-blocking check for a queued event. Returns 1 and holds the
    /// event for dispatch when one is present, 0 otherwise.
    pub fn poll(&mut self) -> (r: i32)
        ensures
            old(self).queue@.len() == 0 ==> r == 0 && *final(self) == *old(self),
            old(self).queue@.len() > 0 ==> r == 1
                && final(self).current == Some(old(self).queue@[0])
                && final(self).queue@ == old(self).queue@.drop_first(),
    {
        if self.queue.len() == 0 {
            0
        } else {
            let ev = self.queue.remove(0);
            self.current = Some(ev);
            1
        }
    }

    /// Receives exactly one event. The real pump blocks until one
    /// arrives; here an event must already have been posted.
    pub fn wait(&mut self) -> (r: i32)
        requires old(self).queue@.len() > 0,
        ensures
            r == 1,
            final(self).current == Some(old(self).queue@[0]),
            final(self).queue@ == old(self).queue@.drop_first(),
    {
        let ev = self.queue.remove(0);
        self.current = Some(ev);
        1
    }

    /// Decodes the currently held event, exactly one per call.
    ///
    /// A close request — a 32-bit-format client message carrying the
    /// cached delete-window atom — decodes to exactly one `CloseRequested`
    /// event and nothing else. A key event on a window the registry does
    /// not know is skipped without error.
    pub fn dispatch(&mut self, session: &X11Session) -> (d: X11Dispatch)
        requires old(self).current is Some,
        ensures
            *final(self) == *old(self),
            dispatch_post(old(self).current->0, session.wm_delete, session.registry(), d),
    {
        let ev = match &self.current {
            Some(e) => *e,
            None => {
                proof {
                    assert(false);
                }
                X11EventData::Other { type_code: 0 }
            },
        };
        let mut events: Vec<Event> = Vec::new();
        let mut query = X11Query::Nothing;
        match ev {
            X11EventData::Expose { .. } => {
                events.push(Event::Render);
            },
            X11EventData::ConfigureNotify { x, y, width, height, .. } => {
                events.push(Event::Resized { width, height });
                events.push(Event::Moved { x, y });
            },
            X11EventData::FocusIn { .. } => {
                events.push(Event::Focused { focused: true });
            },
            X11EventData::FocusOut { .. } => {
                events.push(Event::Focused { focused: false });
            },
            X11EventData::KeyPress { window } => {
                match registry_get(&session.window_map, window) {
                    Some(ic) => {
                        query = X11Query::LookupKey { window, input_context: ic, down: true };
                    },
                    None => {},
                }
            },
            X11EventData::KeyRelease { window } => {
                match registry_get(&session.window_map, window) {
                    Some(ic) => {
                        query = X11Query::LookupKey { window, input_context: ic, down: false };
                    },
                    None => {},
                }
            },
            X11EventData::ButtonPress { button, .. } => {
                if button == 4 {
                    events.push(Event::MouseWheel { delta_x: 0, delta_y: WHEEL_DELTA });
                } else if button == 5 {
                    events.push(Event::MouseWheel { delta_x: 0, delta_y: 0i32 - WHEEL_DELTA });
                } else {
                    events.push(Event::MouseButtonDown { button: MouseButton(button) });
                }
            },
            X11EventData::ButtonRelease { button, .. } => {
                if button == 4 || button == 5 {
                } else {
                    events.push(Event::MouseButtonRelease { button: MouseButton(button) });
                }
            },
            X11EventData::MotionNotify { x, y, .. } => {
                events.push(Event::CursorMoved { x, y });
            },
            X11EventData::EnterNotify { .. } => {
                events.push(Event::CursorEntered);
            },
            X11EventData::LeaveNotify { .. } => {
                events.push(Event::CursorLeft);
            },
            X11EventData::ClientMessage { format, data0, .. } => {
                if format == 32 && data0 == session.wm_delete as i64 {
                    events.push(Event::CloseRequested);
                }
            },
            _ => {},
        }
        X11Dispatch { events, query }
    }
}

/// Configuration of the X11-style event handler. Opening the display and
/// the input method is the pump's work; the session bookkeeping and the
/// one-handler-per-thread rule live here.
#[derive(Clone, Copy, Debug, Default, PartialEq, Eq, Structural)]
pub struct EventHandlerBuilder {}

impl EventHandlerBuilder {
    /// The empty configuration.
    pub fn new() -> (b: Self)
        ensures b == (EventHandlerBuilder {  }),
    {
        EventHandlerBuilder {  }
    }

    /// Marks the session's display as open and caches the delete-window
    /// atom the pump interned.
    ///
    /// A thread allows one event handler: a session that already holds
    /// one refuses a second build and is left untouched. `create_ok` is
    /// what the application's create step reported; on failure the
    /// half-open handler is rolled back.
    pub fn build(&self, session: &mut X11Session, wm_delete: u64, create_ok: bool) -> (r: Result<
        EventHandler,
        WindowError,
    >)
        ensures
            old(session).handler_built ==> (r matches Err(e)
                && e == WindowError::HandlerExists) && *final(session) == *old(session),
            !old(session).handler_built && !create_ok ==> (r matches Err(e)
                && e == WindowError::CreateFailed) && *final(session) == *old(session),
            !old(session).handler_built && create_ok ==> (r matches Ok(h)
                && h.queue@ =~= Seq::<X11EventData>::empty() && h.current is None)
                && final(session).handler_built
                && final(session).wm_delete == wm_delete
                && final(session).window_built == old(session).window_built
                && final(session).registry() == old(session).registry()
                && final(session).next_window_id == old(session).next_window_id
                && final(session).next_context_id == old(session).next_context_id,
    {
        if session.handler_built {
            return Err(WindowError::HandlerExists);
        }
        if !create_ok {
            return Err(WindowError::CreateFailed);
        }
        session.handler_built = true;
        session.wm_delete = wm_delete;
        Ok(EventHandler { queue: Vec::new(), current: None })
    }
}

/// A handle to one X11-style window: the window id, a copyable reference
/// to a resource the application must destroy explicitly.
#[derive(Clone, Copy, Debug, PartialEq, Eq, Structural)]
pub struct WindowHandle {
    pub window: u64,
}

impl WindowHandle {
    /// Destroys the window: its input context leaves the session's
    /// registry, so a later dispatch naming this window id skips its key
    /// events instead of touching a dead context.
    pub fn destroy(&mut self, session: &mut X11Session) -> (r: Result<(), WindowError>)
        ensures
            r == Ok::<(), WindowError>(()),
            final(session).registry() == old(session).registry().remove(old(self).window),
            final(session).window_built == false,
            final(session).handler_built == old(session).handler_built,
            final(session).wm_delete == old(session).wm_delete,
            final(session).next_window_id == old(session).next_window_id,
            final(session).next_context_id == old(session).next_context_id,
    {
        let _ = registry_remove(&mut session.window_map, self.window);
        session.window_built = false;
        Ok(())
    }
}

/// Configuration for one X11-style window: position and size under the
/// root window, and a title.
#[derive(Clone, Debug)]
pub struct WindowBuilder {
    pub x: i32,
    pub y: i32,
    pub width: u32,
    pub height: u32,
    pub title: String,
}

impl WindowBuilder {
    /// The default configuration.
    pub fn new() -> (b: Self)
        ensures
            b.x == 0 && b.y == 0,
            b.width == 480 && b.height == 170,
            b.title@ == Seq::<char>::empty(),
    {
        WindowBuilder { x: 0, y: 0, width: 480, height: 170, title: String::new() }
    }

    /// The same configuration with another title.
    pub fn with_title(self, title: &str) -> (b: Self)
        ensures
            b.title@ == title@,
            b == (WindowBuilder { title: b.title, ..self }),
    {
        WindowBuilder { title: title.to_owned(), ..self }
    }

    /// The same configuration with another size.
    pub fn with_size(self, width: i32, height: i32) -> (b: Self)
        ensures b == (WindowBuilder { width: width as u32, height: height as u32, ..self }),
    {
        WindowBuilder {
            width: #[verifier::truncate] (width as u32),
            height: #[verifier::truncate] (height as u32),
            ..self
        }
    }

    /// Hands out the session's one window and registers its fresh input
    /// context under the window id.
    ///
    /// A second window on the same session is refused and the session is
    /// left untouched.
    pub fn build(&self, session: &mut X11Session) -> (r: Result<WindowHandle, WindowError>)
        requires
            old(session).handler_built,
            old(session).next_window_id < u64::MAX,
            old(session).next_context_id < u64::MAX,
        ensures
            old(session).window_built ==> r == Err::<WindowHandle, WindowError>(
                WindowError::WindowExists,
            ) && *final(session) == *old(session),
            !old(session).window_built ==> (r matches Ok(h)
                && h.window == old(session).next_window_id)
                && final(session).registry() == old(session).registry().insert(
                old(session).next_window_id,
                old(session).next_context_id,
            )
                && final(session).window_built
                && final(session).handler_built
                && final(session).wm_delete == old(session).wm_delete
                && final(session).next_window_id == old(session).next_window_id + 1
                && final(session).next_context_id == old(session).next_context_id + 1,
    {
        if session.window_built {
            return Err(WindowError::WindowExists);
        }
        let window = session.next_window_id;
        let ic = session.next_context_id;
        session.next_window_id = window + 1;
        session.next_context_id = ic + 1;
        let _ = registry_insert(&mut session.window_map, window, ic);
        session.window_built = true;
        Ok(WindowHandle { window })
    }
}


impl EventHandler {
    /// Tears the handler down: the input method and display close, so a
    /// new event handler can be built on this session.
    pub fn destroy(&mut self, session: &mut X11Session) -> (r: Result<(), WindowError>)
        ensures
            r == Ok::<(), WindowError>(()),
            final(session).handler_built == false,
            final(session).window_built == old(session).window_built,
            final(session).wm_delete == old(session).wm_delete,
            final(session).registry() == old(session).registry(),
            final(session).next_window_id == old(session).next_window_id,
            final(session).next_context_id == old(session).next_context_id,
            *final(self) == *old(self),
    {
        session.handler_built = false;
        Ok(())
    }
}
} // verus!
