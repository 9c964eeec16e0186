//! The Android-style backend.
//!
//! Android delivers window lifecycle callbacks on a thread the runtime
//! owns, while the application's event loop runs on a dedicated background
//! thread. The two meet in a strict ping-pong handshake: the runtime thread
//! posts one callback, parks, and may not continue until the loop thread
//! has fully handled it and signalled back. [`ActivityContext`] is that
//! handshake as an explicit state machine over plain values: `deliver` is
//! the runtime thread's half, `handle_current` the loop thread's half, and
//! the ghost logs `delivered` and `handled` witness that every posted state
//! is observed exactly once, in delivery order. The semaphores, the looper
//! and the input queue themselves live outside the library.

use vstd::prelude::*;

use crate::error::WindowError;
use crate::events::Event;
use crate::touch::{Touch, TouchPhase, TouchPoint};

verus! {

/// The lifecycle callback currently pending acknowledgment, or where the
/// activity stands when none is.
#[derive(Clone, Copy, Debug, PartialEq, Eq, Structural)]
pub enum WaitState {
    /// No state was ever posted; the activity is starting up.
    Unset,
    /// The last posted state was handled; the loop thread is free.
    Running,
    OnCreate,
    OnDestroy,
    OnSaveInstanceState,
    OnWindowFocusChanged,
    OnNativeWindowCreated,
    OnNativeWindowResized,
    OnNativeWindowRedrawNeeded,
    OnNativeWindowDestroyed,
    OnInputQueueCreated,
    OnInputQueueDestroyed,
    OnContentRectChanged,
    OnConfigurationChanged,
    OnLowMemory,
}

/// One lifecycle callback as the runtime thread delivers it, with the
/// values it stores before parking: the native window object and its
/// client size, or the new input queue.
#[derive(Clone, Copy, Debug, PartialEq, Eq, Structural)]
pub enum LifecycleEvent {
    Create,
    Destroy,
    SaveInstanceState,
    WindowFocusChanged { focused: bool },
    NativeWindowCreated { window: u64, width: i32, height: i32 },
    NativeWindowResized { width: i32, height: i32 },
    NativeWindowRedrawNeeded,
    NativeWindowDestroyed,
    InputQueueCreated { queue: u64 },
    InputQueueDestroyed,
    ContentRectChanged,
    ConfigurationChanged,
    LowMemory,
}

/// The wait state a lifecycle callback posts.
pub open spec fn spec_wait_state_of(e: LifecycleEvent) -> WaitState {
    match e {
        LifecycleEvent::Create => WaitState::OnCreate,
        LifecycleEvent::Destroy => WaitState::OnDestroy,
        LifecycleEvent::SaveInstanceState => WaitState::OnSaveInstanceState,
        LifecycleEvent::WindowFocusChanged { .. } => WaitState::OnWindowFocusChanged,
        LifecycleEvent::NativeWindowCreated { .. } => WaitState::OnNativeWindowCreated,
        LifecycleEvent::NativeWindowResized { .. } => WaitState::OnNativeWindowResized,
        LifecycleEvent::NativeWindowRedrawNeeded => WaitState::OnNativeWindowRedrawNeeded,
        LifecycleEvent::NativeWindowDestroyed => WaitState::OnNativeWindowDestroyed,
        LifecycleEvent::InputQueueCreated { .. } => WaitState::OnInputQueueCreated,
        LifecycleEvent::InputQueueDestroyed => WaitState::OnInputQueueDestroyed,
        LifecycleEvent::ContentRectChanged => WaitState::OnContentRectChanged,
        LifecycleEvent::ConfigurationChanged => WaitState::OnConfigurationChanged,
        LifecycleEvent::LowMemory => WaitState::OnLowMemory,
    }
}

/// The wait state a lifecycle callback posts.
pub fn wait_state_of(e: &LifecycleEvent) -> (w: WaitState)
    ensures w == spec_wait_state_of(*e),
{
    match e {
        LifecycleEvent::Create => WaitState::OnCreate,
        LifecycleEvent::Destroy => WaitState::OnDestroy,
        LifecycleEvent::SaveInstanceState => WaitState::OnSaveInstanceState,
        LifecycleEvent::WindowFocusChanged { .. } => WaitState::OnWindowFocusChanged,
        LifecycleEvent::NativeWindowCreated { .. } => WaitState::OnNativeWindowCreated,
        LifecycleEvent::NativeWindowResized { .. } => WaitState::OnNativeWindowResized,
        LifecycleEvent::NativeWindowRedrawNeeded => WaitState::OnNativeWindowRedrawNeeded,
        LifecycleEvent::NativeWindowDestroyed => WaitState::OnNativeWindowDestroyed,
        LifecycleEvent::InputQueueCreated { .. } => WaitState::OnInputQueueCreated,
        LifecycleEvent::InputQueueDestroyed => WaitState::OnInputQueueDestroyed,
        LifecycleEvent::ContentRectChanged => WaitState::OnContentRectChanged,
        LifecycleEvent::ConfigurationChanged => WaitState::OnConfigurationChanged,
        LifecycleEvent::LowMemory => WaitState::OnLowMemory,
    }
}

/// The heap state the two threads share, as an explicit state machine.
///
/// `pending` stands for the semaphore pair: it is true exactly while a
/// posted callback awaits acknowledgment, which is also exactly while the
/// runtime thread is parked. The ghost logs record every state ever
/// posted (`delivered`) and every state ever handled (`handled`).
#[verifier::ext_equal]
pub struct ActivityContext {
    /// The callback currently posted, or `Running` between callbacks.
    pub wait_state: WaitState,
    /// True while a posted callback awaits acknowledgment.
    pub pending: bool,
    /// The current native window object, as an opaque identifier.
    pub native_window: Option<u64>,
    /// The last client size the runtime reported, with the window.
    pub window_size: Option<(i32, i32)>,
    /// The current input queue, as an opaque identifier.
    pub input_queue: Option<u64>,
    /// Whether the one window of this activity was handed out.
    pub window_created: bool,
    /// Whether the input queue is attached to the loop thread's looper.
    pub looper_attached: bool,
    /// How many times the input queue was attached to the looper.
    pub attach_count: u32,
    /// How many messages the window builder consumed without handling.
    pub unhandled_messages: u64,
    /// Every wait state the runtime thread ever posted, in order.
    pub delivered: Ghost<Seq<WaitState>>,
    /// Every wait state the loop thread ever observed, in order.
    pub handled: Ghost<Seq<WaitState>>,
}

impl ActivityContext {
    /// The handshake invariant: the loop thread has observed exactly the
    /// posted states, in order, short of the one still pending.
    pub open spec fn wf(self) -> bool {
        &&& self.pending ==> self.delivered@ == self.handled@.push(self.wait_state)
            && self.wait_state != WaitState::Running && self.wait_state != WaitState::Unset
        &&& !self.pending ==> self.delivered@ == self.handled@
        &&& self.native_window is Some ==> self.window_size is Some
    }

    /// A fresh context, as `onCreate` allocates it.
    pub fn new() -> (c: Self)
        ensures
            c.wf(),
            !c.pending,
            c.wait_state == WaitState::Unset,
            c.native_window is None,
            c.window_size is None,
            c.input_queue is None,
            !c.window_created,
            !c.looper_attached,
            c.attach_count == 0,
            c.unhandled_messages == 0,
            c.delivered@ == Seq::<WaitState>::empty(),
            c.handled@ == Seq::<WaitState>::empty(),
    {
        ActivityContext {
            wait_state: WaitState::Unset,
            pending: false,
            native_window: None,
            window_size: None,
            input_queue: None,
            window_created: false,
            looper_attached: false,
            attach_count: 0,
            unhandled_messages: 0,
            delivered: Ghost(Seq::empty()),
            handled: Ghost(Seq::empty()),
        }
    }

    /// The runtime thread's half of the handshake: store the callback's
    /// values, post its wait state, and park. It may only run while no
    /// other callback is pending — the previous one must have been
    /// acknowledged first, which is the mutual exclusion of the protocol.
    pub fn deliver(&mut self, e: &LifecycleEvent)
        requires
            old(self).wf(),
            !old(self).pending,
        ensures
            final(self).wf(),
            final(self).pending,
            final(self).wait_state == spec_wait_state_of(*e),
            final(self).delivered@ == old(self).delivered@.push(spec_wait_state_of(*e)),
            final(self).handled@ == old(self).handled@,
            final(self).native_window == (if let LifecycleEvent::NativeWindowCreated {
                window,
                ..
            } = *e {
                Some(window)
            } else {
                old(self).native_window
            }),
            final(self).window_size == (match *e {
                LifecycleEvent::NativeWindowCreated { width, height, .. } => Some((width, height)),
                LifecycleEvent::NativeWindowResized { width, height } => Some((width, height)),
                _ => old(self).window_size,
            }),
            final(self).input_queue == (if let LifecycleEvent::InputQueueCreated { queue } = *e {
                Some(queue)
            } else {
                old(self).input_queue
            }),
            final(self).window_created == old(self).window_created,
            final(self).looper_attached == old(self).looper_attached,
            final(self).attach_count == old(self).attach_count,
            final(self).unhandled_messages == old(self).unhandled_messages,
    {
        match e {
            LifecycleEvent::NativeWindowCreated { window, width, height } => {
                self.native_window = Some(*window);
                self.window_size = Some((*width, *height));
            },
            LifecycleEvent::NativeWindowResized { width, height } => {
                self.window_size = Some((*width, *height));
            },
            LifecycleEvent::InputQueueCreated { queue } => {
                self.input_queue = Some(*queue);
            },
            _ => {},
        }
        self.wait_state = wait_state_of(e);
        proof {
            self.delivered@ = self.delivered@.push(self.wait_state);
        }
        self.pending = true;
    }

    /// The application-visible events of handling one posted state, given
    /// the native window and its size at that moment.
    pub open spec fn spec_step_events(
        ws: WaitState,
        window: Option<u64>,
        size: Option<(i32, i32)>,
    ) -> Seq<Event> {
        match ws {
            WaitState::OnNativeWindowCreated => seq![Event::Shown],
            WaitState::OnNativeWindowResized => if window is Some && size is Some {
                seq![
                    Event::Resized { width: size->Some_0.0, height: size->Some_0.1 },
                ]
            } else {
                seq![Event::Resized { width: 0, height: 0 }]
            },
            WaitState::OnNativeWindowRedrawNeeded => seq![Event::Render],
            WaitState::OnNativeWindowDestroyed => seq![Event::Minimized],
            _ => Seq::empty(),
        }
    }

    /// Whether handling this state ends the loop thread: the activity is
    /// going away, or the application's create step returned without ever
    /// obtaining a window.
    pub open spec fn spec_step_exits(ws: WaitState) -> bool {
        ws == WaitState::OnDestroy || ws == WaitState::OnCreate
    }

    /// The loop thread's half of the handshake: observe the posted state,
    /// perform its transition, and acknowledge, releasing the runtime
    /// thread. Exactly one posted state is consumed per call.
    pub fn handle_current(&mut self) -> (r: (Vec<Event>, bool))
        requires
            old(self).wf(),
            old(self).pending,
            old(self).attach_count < 0xFFFF_FFFFu32,
        ensures
            final(self).wf(),
            !final(self).pending,
            final(self).wait_state == WaitState::Running,
            final(self).handled@ == old(self).handled@.push(old(self).wait_state),
            final(self).delivered@ == old(self).delivered@,
            r.0@ == Self::spec_step_events(
                old(self).wait_state,
                old(self).native_window,
                old(self).window_size,
            ),
            r.1 == Self::spec_step_exits(old(self).wait_state),
            final(self).native_window == (if old(self).wait_state
                == WaitState::OnNativeWindowDestroyed {
                Option::<u64>::None
            } else {
                old(self).native_window
            }),
            final(self).window_size == (if old(self).wait_state
                == WaitState::OnNativeWindowDestroyed {
                Option::<(i32, i32)>::None
            } else {
                old(self).window_size
            }),
            final(self).input_queue == (if old(self).wait_state
                == WaitState::OnInputQueueDestroyed {
                Option::<u64>::None
            } else {
                old(self).input_queue
            }),
            final(self).looper_attached == (if old(self).wait_state
                == WaitState::OnInputQueueCreated {
                true
            } else if old(self).wait_state == WaitState::OnInputQueueDestroyed {
                false
            } else {
                old(self).looper_attached
            }),
            final(self).attach_count == (if old(self).wait_state
                == WaitState::OnInputQueueCreated {
                old(self).attach_count + 1
            } else {
                old(self).attach_count as int
            }),
            final(self).window_created == old(self).window_created,
            final(self).unhandled_messages == old(self).unhandled_messages,
    {
        let ws = self.wait_state;
        let mut events: Vec<Event> = Vec::new();
        let mut exit = false;
        match ws {
            WaitState::OnNativeWindowCreated => {
                events.push(Event::Shown);
            },
            WaitState::OnNativeWindowResized => {
                match (self.native_window, self.window_size) {
                    (Some(_), Some((w, h))) => {
                        events.push(Event::Resized { width: w, height: h });
                    },
                    _ => {
                        events.push(Event::Resized { width: 0, height: 0 });
                    },
                }
            },
            WaitState::OnNativeWindowRedrawNeeded => {
                events.push(Event::Render);
            },
            WaitState::OnNativeWindowDestroyed => {
                events.push(Event::Minimized);
                self.native_window = None;
                self.window_size = None;
            },
            WaitState::OnInputQueueCreated => {
                self.looper_attached = true;
                self.attach_count = self.attach_count + 1;
            },
            WaitState::OnInputQueueDestroyed => {
                self.looper_attached = false;
                self.input_queue = None;
            },
            WaitState::OnCreate => {
                exit = true;
            },
            WaitState::OnDestroy => {
                exit = true;
            },
            _ => {},
        }
        proof {
            self.handled@ = self.handled@.push(ws);
        }
        self.pending = false;
        self.wait_state = WaitState::Running;
        (events, exit)
    }

    /// What the activity saves when the runtime asks for instance
    /// state: nothing — zero bytes, always.
    pub fn saved_instance_state(&self) -> (r: Vec<u8>)
        ensures r@ =~= Seq::<u8>::empty(),
    {
        Vec::new()
    }

    /// The wait state as the loop thread reads it.
    pub fn waits_at(&self) -> (w: WaitState)
        ensures w == self.wait_state,
    {
        self.wait_state
    }

    /// A wake of the loop thread's poller, used to request a frame on
    /// demand: it carries no lifecycle state and renders once.
    pub fn wake_render(&self) -> (r: Vec<Event>)
        ensures r@ == seq![Event::Render],
    {
        let mut v: Vec<Event> = Vec::new();
        v.push(Event::Render);
        v
    }

    /// One full rendezvous: the runtime thread posts a callback, the loop
    /// thread handles it and acknowledges. Both logs grow by exactly this
    /// one state.
    pub fn process(&mut self, e: &LifecycleEvent) -> (r: (Vec<Event>, bool))
        requires
            old(self).wf(),
            !old(self).pending,
            old(self).attach_count < 0xFFFF_FFFFu32,
        ensures
            final(self).wf(),
            !final(self).pending,
            *final(self) == spec_handled_ctx(spec_delivered_ctx(*old(self), *e)),
            final(self).delivered@ == old(self).delivered@.push(spec_wait_state_of(*e)),
            final(self).handled@ == old(self).handled@.push(spec_wait_state_of(*e)),
            r.0@ == Self::spec_step_events(
                spec_wait_state_of(*e),
                spec_delivered_ctx(*old(self), *e).native_window,
                spec_delivered_ctx(*old(self), *e).window_size,
            ),
            r.1 == Self::spec_step_exits(spec_wait_state_of(*e)),
    {
        self.deliver(e);
        let ghost c1 = *self;
        let r = self.handle_current();
        proof {
            assert(c1 =~= spec_delivered_ctx(*old(self), *e));
            assert(*self =~= spec_handled_ctx(c1));
        }
        r
    }
}


/// The context right after the runtime thread delivered `e`.
pub open spec fn spec_delivered_ctx(c: ActivityContext, e: LifecycleEvent) -> ActivityContext {
    let ws = spec_wait_state_of(e);
    ActivityContext {
        wait_state: ws,
        pending: true,
        native_window: (if let LifecycleEvent::NativeWindowCreated { window, .. } = e {
            Some(window)
        } else {
            c.native_window
        }),
        window_size: (match e {
            LifecycleEvent::NativeWindowCreated { width, height, .. } => Some((width, height)),
            LifecycleEvent::NativeWindowResized { width, height } => Some((width, height)),
            _ => c.window_size,
        }),
        input_queue: (if let LifecycleEvent::InputQueueCreated { queue } = e {
            Some(queue)
        } else {
            c.input_queue
        }),
        delivered: Ghost(c.delivered@.push(ws)),
        ..c
    }
}

/// The context right after the loop thread handled and acknowledged the
/// pending state.
pub open spec fn spec_handled_ctx(c: ActivityContext) -> ActivityContext {
    ActivityContext {
        wait_state: WaitState::Running,
        pending: false,
        native_window: (if c.wait_state == WaitState::OnNativeWindowDestroyed {
            None
        } else {
            c.native_window
        }),
        window_size: (if c.wait_state == WaitState::OnNativeWindowDestroyed {
            None
        } else {
            c.window_size
        }),
        input_queue: (if c.wait_state == WaitState::OnInputQueueDestroyed {
            None
        } else {
            c.input_queue
        }),
        looper_attached: (if c.wait_state == WaitState::OnInputQueueCreated {
            true
        } else if c.wait_state == WaitState::OnInputQueueDestroyed {
            false
        } else {
            c.looper_attached
        }),
        attach_count: (if c.wait_state == WaitState::OnInputQueueCreated {
            (c.attach_count + 1) as u32
        } else {
            c.attach_count
        }),
        handled: Ghost(c.handled@.push(c.wait_state)),
        ..c
    }
}

/// The context after the loop thread processed a whole sequence of
/// lifecycle callbacks, stopping after the first one that ends the loop.
pub open spec fn spec_run_ctx(c: ActivityContext, events: Seq<LifecycleEvent>) -> ActivityContext
    decreases events.len(),
{
    if events.len() == 0 {
        c
    } else {
        let ws = spec_wait_state_of(events[0]);
        let c2 = spec_handled_ctx(spec_delivered_ctx(c, events[0]));
        if ActivityContext::spec_step_exits(ws) {
            c2
        } else {
            spec_run_ctx(c2, events.drop_first())
        }
    }
}

/// The application-visible events of that run, in order.
pub open spec fn spec_run_events(c: ActivityContext, events: Seq<LifecycleEvent>) -> Seq<Event>
    decreases events.len(),
{
    if events.len() == 0 {
        Seq::empty()
    } else {
        let ws = spec_wait_state_of(events[0]);
        let c1 = spec_delivered_ctx(c, events[0]);
        let out = ActivityContext::spec_step_events(ws, c1.native_window, c1.window_size);
        if ActivityContext::spec_step_exits(ws) {
            out
        } else {
            out + spec_run_events(spec_handled_ctx(c1), events.drop_first())
        }
    }
}

/// The wait states that run posts and observes: every callback up to and
/// including the first one that ends the loop.
pub open spec fn spec_run_states(events: Seq<LifecycleEvent>) -> Seq<WaitState>
    decreases events.len(),
{
    if events.len() == 0 {
        Seq::empty()
    } else {
        let ws = spec_wait_state_of(events[0]);
        if ActivityContext::spec_step_exits(ws) {
            seq![ws]
        } else {
            seq![ws] + spec_run_states(events.drop_first())
        }
    }
}

/// Whether that run ends the loop thread.
pub open spec fn spec_run_exits(events: Seq<LifecycleEvent>) -> bool
    decreases events.len(),
{
    if events.len() == 0 {
        false
    } else if ActivityContext::spec_step_exits(spec_wait_state_of(events[0])) {
        true
    } else {
        spec_run_exits(events.drop_first())
    }
}

impl ActivityContext {
    /// The loop from one position on: see [`ActivityContext::process_all`].
    fn process_from(&mut self, events: &Vec<LifecycleEvent>, i: usize) -> (r: (Vec<Event>, bool))
        requires
            old(self).wf(),
            !old(self).pending,
            i <= events@.len(),
            old(self).attach_count + (events@.len() - i) <= 0xFFFF_FFFFu32,
        ensures
            *final(self) == spec_run_ctx(*old(self), events@.skip(i as int)),
            final(self).wf(),
            !final(self).pending,
            r.0@ == spec_run_events(*old(self), events@.skip(i as int)),
            r.1 == spec_run_exits(events@.skip(i as int)),
        decreases events@.len() - i,
    {
        if i == events.len() {
            proof {
                assert(events@.skip(i as int) =~= Seq::<LifecycleEvent>::empty());
            }
            (Vec::new(), false)
        } else {
            let ghost rest = events@.skip(i as int);
            proof {
                assert(rest[0] == events@[i as int]);
                assert(rest.drop_first() =~= events@.skip(i + 1int));
            }
            let e = events[i];
            self.deliver(&e);
            let ghost c1 = *self;
            proof {
                assert(c1 =~= spec_delivered_ctx(*old(self), e));
            }
            let (mut out, exit) = self.handle_current();
            proof {
                assert(*self =~= spec_handled_ctx(c1));
            }
            if exit {
                (out, true)
            } else {
                let (mut tail, tail_exit) = self.process_from(events, i + 1);
                out.append(&mut tail);
                proof {
                    assert(out@ =~= spec_run_events(*old(self), rest));
                }
                (out, tail_exit)
            }
        }
    }

    /// The loop thread's main loop over a sequence of lifecycle callbacks:
    /// each is delivered, handled and acknowledged as one full rendezvous,
    /// in order, until one ends the loop. Returns the application-visible
    /// events and whether the loop ended.
    ///
    /// Together with [`lemma_handshake_order`] this is the handshake's
    /// mutual exclusion: each posted state is observed exactly once, in
    /// delivery order, and the runtime thread is parked from its post to
    /// its acknowledgment.
    pub fn process_all(&mut self, events: &Vec<LifecycleEvent>) -> (r: (Vec<Event>, bool))
        requires
            old(self).wf(),
            !old(self).pending,
            old(self).attach_count + events@.len() <= 0xFFFF_FFFFu32,
        ensures
            *final(self) == spec_run_ctx(*old(self), events@),
            final(self).wf(),
            !final(self).pending,
            r.0@ == spec_run_events(*old(self), events@),
            r.1 == spec_run_exits(events@),
    {
        proof {
            assert(events@.skip(0) =~= events@);
        }
        self.process_from(events, 0)
    }
}

/// The handshake's ordering law: over any sequence of lifecycle callbacks,
/// the loop thread observes exactly the states the runtime thread posts,
/// each exactly once, in delivery order — both logs grow by the same
/// sequence, every callback up to and including the first one that ends
/// the loop.
pub proof fn lemma_handshake_order(c: ActivityContext, events: Seq<LifecycleEvent>)
    requires
        c.wf(),
        !c.pending,
    ensures
        spec_run_ctx(c, events).delivered@ == c.delivered@ + spec_run_states(events),
        spec_run_ctx(c, events).handled@ == c.handled@ + spec_run_states(events),
        spec_run_ctx(c, events).wf(),
        !spec_run_ctx(c, events).pending,
    decreases events.len(),
{
    if events.len() == 0 {
        assert(c.delivered@ + spec_run_states(events) =~= c.delivered@);
        assert(c.handled@ + spec_run_states(events) =~= c.handled@);
    } else {
        let ws = spec_wait_state_of(events[0]);
        let c1 = spec_delivered_ctx(c, events[0]);
        let c2 = spec_handled_ctx(c1);
        assert(c2.delivered@ =~= c.delivered@ + seq![ws]);
        assert(c2.handled@ =~= c.handled@ + seq![ws]);
        if ActivityContext::spec_step_exits(ws) {
        } else {
            lemma_handshake_order(c2, events.drop_first());
            assert(c.delivered@ + spec_run_states(events)
                =~= (c.delivered@ + seq![ws]) + spec_run_states(events.drop_first()));
            assert(c.handled@ + spec_run_states(events)
                =~= (c.handled@ + seq![ws]) + spec_run_states(events.drop_first()));
        }
    }
}


/// A handle to the activity's one window. It refers to the activity
/// context rather than owning anything: Android owns the window's
/// lifetime, so destroying the handle releases nothing.
#[derive(Clone, Copy, Debug, PartialEq, Eq, Structural)]
pub struct WindowHandle {}

impl WindowHandle {
    /// Android maps and shows the window itself; nothing is owed here.
    pub fn show(&self) -> (r: Result<(), WindowError>)
        ensures r == Ok::<(), WindowError>(()),
    {
        Ok(())
    }

    /// Pointer capture does not exist in the touch input model: a silent
    /// no-op, a capability gap rather than an error.
    pub fn set_capture(&self) {
    }

    /// The matching no-op of [`WindowHandle::set_capture`].
    pub fn release_capture(&self) -> (r: Result<(), WindowError>)
        ensures r == Ok::<(), WindowError>(()),
    {
        Ok(())
    }

    /// Requests a frame: the real backend wakes the loop thread's poller,
    /// which renders once (see [`ActivityContext::wake_render`]).
    pub fn redraw(&self) -> (r: Result<(), WindowError>)
        ensures r == Ok::<(), WindowError>(()),
    {
        Ok(())
    }

    /// Activities have no window title to read.
    pub fn window_title(&self) -> (r: Result<String, WindowError>)
        ensures r == Err::<String, WindowError>(WindowError::NotSupported),
    {
        Err(WindowError::NotSupported)
    }

    /// Activities have no window title to set.
    pub fn set_window_title(&self, title: &str) -> (r: Result<(), WindowError>)
        ensures r == Err::<(), WindowError>(WindowError::NotSupported),
    {
        let _ = title;
        Err(WindowError::NotSupported)
    }

    /// The display density is not exposed on this backend.
    pub fn dpi(&self) -> (r: Result<u32, WindowError>)
        ensures r == Err::<u32, WindowError>(WindowError::NotSupported),
    {
        Err(WindowError::NotSupported)
    }

    /// The client size of the activity's window, as the runtime last
    /// reported it.
    pub fn client_size(&self, context: &ActivityContext) -> (r: Result<crate::Size, WindowError>)
        requires context.wf(),
        ensures
            context.native_window is Some ==> (r matches Ok(s)
                && context.window_size matches Some(ws)
                && s.width == ws.0 && s.height == ws.1),
            context.native_window is None ==> r == Err::<crate::Size, WindowError>(
                WindowError::WindowNotPresent,
            ),
    {
        match (context.native_window, context.window_size) {
            (Some(_), Some((w, h))) => Ok(crate::Size { width: w, height: h }),
            _ => Err(WindowError::WindowNotPresent),
        }
    }

    /// The client size under its other name.
    pub fn get_window_size(&self, context: &ActivityContext) -> (r: Result<
        crate::Size,
        WindowError,
    >)
        requires context.wf(),
        ensures
            context.native_window is Some ==> (r matches Ok(s)
                && context.window_size matches Some(ws)
                && s.width == ws.0 && s.height == ws.1),
            context.native_window is None ==> r == Err::<crate::Size, WindowError>(
                WindowError::WindowNotPresent,
            ),
    {
        self.client_size(context)
    }
}

impl crate::destroy::Destroy for WindowHandle {
    /// Android owns the window: destroying the handle releases nothing.
    fn destroy(&mut self) -> Result<(), WindowError> {
        Ok(())
    }
}

/// How the window builder's wait loop reacts to one posted state.
#[derive(Clone, Copy, Debug, PartialEq, Eq, Structural)]
pub enum BuildStep {
    /// The window exists: hand out the handle.
    Ready,
    /// Waiting can never succeed from here: give up with this error.
    Fail(WindowError),
    /// Acknowledge and keep waiting.
    KeepWaiting,
}

/// What the builder's wait loop does with one posted state: the window's
/// creation ends the wait; a destroy, or any message that needs a window
/// to be present already, fails it; everything else is acknowledged and
/// reposted so the handshake stays alive.
pub open spec fn spec_build_step(ws: WaitState) -> BuildStep {
    match ws {
        WaitState::OnNativeWindowCreated => BuildStep::Ready,
        WaitState::OnDestroy => BuildStep::Fail(WindowError::DestroyedWhileWaiting),
        WaitState::OnNativeWindowResized => BuildStep::Fail(WindowError::WindowNotPresent),
        WaitState::OnNativeWindowRedrawNeeded => BuildStep::Fail(WindowError::WindowNotPresent),
        WaitState::OnNativeWindowDestroyed => BuildStep::Fail(WindowError::WindowNotPresent),
        WaitState::OnWindowFocusChanged => BuildStep::Fail(WindowError::WindowNotPresent),
        WaitState::OnContentRectChanged => BuildStep::Fail(WindowError::WindowNotPresent),
        _ => BuildStep::KeepWaiting,
    }
}

/// What the builder's wait loop does with one posted state.
pub fn build_step_of(ws: WaitState) -> (r: BuildStep)
    ensures r == spec_build_step(ws),
{
    match ws {
        WaitState::OnNativeWindowCreated => BuildStep::Ready,
        WaitState::OnDestroy => BuildStep::Fail(WindowError::DestroyedWhileWaiting),
        WaitState::OnNativeWindowResized => BuildStep::Fail(WindowError::WindowNotPresent),
        WaitState::OnNativeWindowRedrawNeeded => BuildStep::Fail(WindowError::WindowNotPresent),
        WaitState::OnNativeWindowDestroyed => BuildStep::Fail(WindowError::WindowNotPresent),
        WaitState::OnWindowFocusChanged => BuildStep::Fail(WindowError::WindowNotPresent),
        WaitState::OnContentRectChanged => BuildStep::Fail(WindowError::WindowNotPresent),
        _ => BuildStep::KeepWaiting,
    }
}

/// The context after the builder acknowledged one kept-waiting state: the
/// input queue is attached or detached as it changes identity, and a
/// message the builder cannot handle is counted and acknowledged anyway.
pub open spec fn spec_build_ack_ctx(c: ActivityContext) -> ActivityContext {
    ActivityContext {
        wait_state: WaitState::Running,
        pending: false,
        input_queue: (if c.wait_state == WaitState::OnInputQueueDestroyed {
            None
        } else {
            c.input_queue
        }),
        looper_attached: (if c.wait_state == WaitState::OnInputQueueCreated {
            true
        } else if c.wait_state == WaitState::OnInputQueueDestroyed {
            false
        } else {
            c.looper_attached
        }),
        attach_count: (if c.wait_state == WaitState::OnInputQueueCreated {
            (c.attach_count + 1) as u32
        } else {
            c.attach_count
        }),
        unhandled_messages: (if c.wait_state == WaitState::OnSaveInstanceState || c.wait_state
            == WaitState::OnLowMemory {
            (c.unhandled_messages + 1) as u64
        } else {
            c.unhandled_messages
        }),
        handled: Ghost(c.handled@.push(c.wait_state)),
        ..c
    }
}

/// The context after the builder's wait loop ran over a sequence of
/// lifecycle callbacks. The deciding callback — the window's creation, or
/// one the builder fails on — is left pending: the run loop acknowledges
/// it after the builder returns.
pub open spec fn spec_build_ctx(c: ActivityContext, events: Seq<LifecycleEvent>) -> ActivityContext
    decreases events.len(),
{
    if events.len() == 0 {
        c
    } else {
        let ws = spec_wait_state_of(events[0]);
        let c1 = spec_delivered_ctx(c, events[0]);
        match spec_build_step(ws) {
            BuildStep::Ready => ActivityContext { window_created: true, ..c1 },
            BuildStep::Fail(_) => c1,
            BuildStep::KeepWaiting => spec_build_ctx(spec_build_ack_ctx(c1), events.drop_first()),
        }
    }
}

/// What the builder's wait loop returns over a sequence of callbacks.
pub open spec fn spec_build_result(events: Seq<LifecycleEvent>) -> BuildResult
    decreases events.len(),
{
    if events.len() == 0 {
        BuildResult::Waiting
    } else {
        match spec_build_step(spec_wait_state_of(events[0])) {
            BuildStep::Ready => BuildResult::Ready(WindowHandle {  }),
            BuildStep::Fail(e) => BuildResult::Failed(e),
            BuildStep::KeepWaiting => spec_build_result(events.drop_first()),
        }
    }
}

/// The outcome of the window builder's wait.
#[derive(Clone, Copy, Debug, PartialEq, Eq, Structural)]
pub enum BuildResult {
    /// The window exists; here is its handle.
    Ready(WindowHandle),
    /// The wait cannot succeed; the activity context is unusable for a
    /// window from here on.
    Failed(WindowError),
    /// The delivered callbacks ended before the window appeared; the real
    /// builder would still be blocked waiting.
    Waiting,
}

impl ActivityContext {
    /// The builder's acknowledgment of one state it keeps waiting over.
    fn ack_during_build(&mut self)
        requires
            old(self).wf(),
            old(self).pending,
            spec_build_step(old(self).wait_state) == BuildStep::KeepWaiting,
            old(self).attach_count < 0xFFFF_FFFFu32,
            old(self).unhandled_messages < 0xFFFF_FFFF_FFFF_FFFFu64,
        ensures
            *final(self) == spec_build_ack_ctx(*old(self)),
            final(self).wf(),
            !final(self).pending,
    {
        match self.wait_state {
            WaitState::OnInputQueueCreated => {
                self.looper_attached = true;
                self.attach_count = self.attach_count + 1;
            },
            WaitState::OnInputQueueDestroyed => {
                self.looper_attached = false;
                self.input_queue = None;
            },
            WaitState::OnSaveInstanceState | WaitState::OnLowMemory => {
                self.unhandled_messages = self.unhandled_messages + 1;
            },
            _ => {},
        }
        proof {
            self.handled@ = self.handled@.push(self.wait_state);
        }
        self.wait_state = WaitState::Running;
        self.pending = false;
        proof {
            assert(*self =~= spec_build_ack_ctx(*old(self)));
        }
    }

    /// The builder's wait from one position on.
    fn build_from(&mut self, events: &Vec<LifecycleEvent>, i: usize) -> (r: BuildResult)
        requires
            old(self).wf(),
            !old(self).pending,
            i <= events@.len(),
            old(self).attach_count + (events@.len() - i) <= 0xFFFF_FFFFu32,
            old(self).unhandled_messages + (events@.len() - i) <= 0xFFFF_FFFF_FFFF_FFFFu64,
        ensures
            *final(self) == spec_build_ctx(*old(self), events@.skip(i as int)),
            r == spec_build_result(events@.skip(i as int)),
            final(self).wf(),
        decreases events@.len() - i,
    {
        if i == events.len() {
            proof {
                assert(events@.skip(i as int) =~= Seq::<LifecycleEvent>::empty());
            }
            BuildResult::Waiting
        } else {
            let ghost rest = events@.skip(i as int);
            proof {
                assert(rest[0] == events@[i as int]);
                assert(rest.drop_first() =~= events@.skip(i + 1int));
            }
            let e = events[i];
            self.deliver(&e);
            proof {
                assert(*self =~= spec_delivered_ctx(*old(self), e));
            }
            match build_step_of(self.wait_state) {
                BuildStep::Ready => {
                    self.window_created = true;
                    proof {
                        assert(*self =~= spec_build_ctx(*old(self), rest));
                    }
                    BuildResult::Ready(WindowHandle {  })
                },
                BuildStep::Fail(err) => {
                    BuildResult::Failed(err)
                },
                BuildStep::KeepWaiting => {
                    self.ack_during_build();
                    self.build_from(events, i + 1)
                },
            }
        }
    }
}

/// Configuration for the activity's one window. Android creates the
/// window itself, so there is nothing to configure: the builder only
/// waits until the window exists.
#[derive(Clone, Copy, Debug, Default, PartialEq, Eq, Structural)]
pub struct WindowBuilder {}

impl WindowBuilder {
    /// The empty configuration.
    pub fn new() -> (b: Self)
        ensures b == (WindowBuilder {  }),
    {
        WindowBuilder {  }
    }

    /// Accepted and ignored: the activity's window has no title.
    pub fn with_title(self, title: &str) -> (b: Self)
        ensures b == self,
    {
        let _ = title;
        self
    }

    /// Accepted and ignored: Android sizes the window.
    pub fn with_size(self, width: i32, height: i32) -> (b: Self)
        ensures b == self,
    {
        let _ = width;
        let _ = height;
        self
    }

    /// Waits for the activity's window by consuming lifecycle callbacks,
    /// playing the loop thread's part of the handshake for each.
    ///
    /// Only one window exists per activity: once a handle was handed out,
    /// a second build is refused and the context is left untouched. The
    /// callback that decides the wait — the window's creation, or one the
    /// builder fails on — is left pending for the run loop to acknowledge;
    /// every other callback is acknowledged here, even ones the builder
    /// cannot handle, so the runtime thread is never left parked.
    pub fn build(&self, context: &mut ActivityContext, incoming: &Vec<LifecycleEvent>) -> (r:
        BuildResult)
        requires
            old(context).wf(),
            !old(context).pending,
            old(context).attach_count + incoming@.len() <= 0xFFFF_FFFFu32,
            old(context).unhandled_messages + incoming@.len() <= 0xFFFF_FFFF_FFFF_FFFFu64,
        ensures
            old(context).window_created ==> r == BuildResult::Failed(WindowError::WindowExists)
                && *final(context) == *old(context),
            !old(context).window_created ==> r == spec_build_result(incoming@)
                && *final(context) == spec_build_ctx(*old(context), incoming@),
            final(context).wf(),
    {
        if context.window_created {
            return BuildResult::Failed(WindowError::WindowExists);
        }
        proof {
            assert(incoming@.skip(0) =~= incoming@);
        }
        context.build_from(incoming, 0)
    }
}

/// Motion action codes, after masking with the action mask.
pub const AMOTION_EVENT_ACTION_MASK: u32 = 0xFF;
pub const AMOTION_EVENT_ACTION_DOWN: u32 = 0;
pub const AMOTION_EVENT_ACTION_UP: u32 = 1;
pub const AMOTION_EVENT_ACTION_MOVE: u32 = 2;
pub const AMOTION_EVENT_ACTION_CANCEL: u32 = 3;
pub const AMOTION_EVENT_ACTION_POINTER_DOWN: u32 = 5;
pub const AMOTION_EVENT_ACTION_POINTER_UP: u32 = 6;

/// The touch phase of a masked motion action code; `None` for actions
/// that carry no touch sample.
pub open spec fn spec_touch_phase(masked: u32) -> Option<TouchPhase> {
    if masked == AMOTION_EVENT_ACTION_DOWN {
        Some(TouchPhase::Started)
    } else if masked == AMOTION_EVENT_ACTION_UP {
        Some(TouchPhase::Ended)
    } else if masked == AMOTION_EVENT_ACTION_MOVE {
        Some(TouchPhase::Moved)
    } else if masked == AMOTION_EVENT_ACTION_CANCEL {
        Some(TouchPhase::Cancelled)
    } else if masked == AMOTION_EVENT_ACTION_POINTER_DOWN {
        Some(TouchPhase::Started)
    } else if masked == AMOTION_EVENT_ACTION_POINTER_UP {
        Some(TouchPhase::Ended)
    } else {
        None
    }
}

/// The touch phase of a raw motion action code.
pub fn touch_phase_of_action(action: u32) -> (r: Option<TouchPhase>)
    ensures r == spec_touch_phase(action & AMOTION_EVENT_ACTION_MASK),
{
    let masked = action & AMOTION_EVENT_ACTION_MASK;
    if masked == AMOTION_EVENT_ACTION_DOWN {
        Some(TouchPhase::Started)
    } else if masked == AMOTION_EVENT_ACTION_UP {
        Some(TouchPhase::Ended)
    } else if masked == AMOTION_EVENT_ACTION_MOVE {
        Some(TouchPhase::Moved)
    } else if masked == AMOTION_EVENT_ACTION_CANCEL {
        Some(TouchPhase::Cancelled)
    } else if masked == AMOTION_EVENT_ACTION_POINTER_DOWN {
        Some(TouchPhase::Started)
    } else if masked == AMOTION_EVENT_ACTION_POINTER_UP {
        Some(TouchPhase::Ended)
    } else {
        None
    }
}

/// One active pointer of a native motion event, with the previous sample
/// of the same pointer where the event recorded history.
#[derive(Clone, Copy, Debug, PartialEq, Eq, Structural)]
pub struct MotionPointer {
    pub id: u64,
    pub x: i32,
    pub y: i32,
    pub historical: Option<TouchPoint>,
}

/// One native motion event: its raw action code and every active pointer.
#[derive(Clone, Debug)]
pub struct MotionEventData {
    pub action: u32,
    pub pointers: Vec<MotionPointer>,
}

/// The touch event of one pointer of a motion event.
pub open spec fn spec_touch_event(
    phase: TouchPhase,
    index: int,
    p: MotionPointer,
    pointer_count: nat,
) -> Event {
    Event::Touch {
        touch: Touch {
            phase,
            location: TouchPoint { x: p.x, y: p.y },
            pointer_index: index as usize,
            id: p.id,
            historical: p.historical,
        },
        pointer_count: pointer_count as usize,
    }
}

/// The events of one motion event: one touch sample per active pointer,
/// in pointer order, then the end-of-event marker; an action that carries
/// no touch sample yields only the marker.
pub open spec fn spec_motion_events(m: MotionEventData) -> Seq<Event> {
    let touches = match spec_touch_phase(m.action & AMOTION_EVENT_ACTION_MASK) {
        Some(phase) => m.pointers@.map(
            |i: int, p: MotionPointer| spec_touch_event(phase, i, p, m.pointers@.len()),
        ),
        None => Seq::empty(),
    };
    touches.push(Event::TouchEnd)
}

/// Decodes one native motion event into touch events: every active
/// pointer of the event is delivered, then the end marker, so an
/// application sees each multi-touch sample exactly once per event.
pub fn decode_motion(m: &MotionEventData) -> (r: Vec<Event>)
    ensures r@ == spec_motion_events(*m),
{
    let mut events: Vec<Event> = Vec::new();
    let pointer_count = m.pointers.len();
    match touch_phase_of_action(m.action) {
        Some(phase) => {
            let ghost touches = m.pointers@.map(
                |j: int, p: MotionPointer| spec_touch_event(phase, j, p, m.pointers@.len()),
            );
            let mut i: usize = 0;
            while i < pointer_count
                invariant
                    pointer_count == m.pointers@.len(),
                    0 <= i <= pointer_count,
                    touches == m.pointers@.map(
                        |j: int, p: MotionPointer| spec_touch_event(phase, j, p, m.pointers@.len()),
                    ),
                    events@ =~= touches.take(i as int),
                decreases pointer_count - i,
            {
                let p = m.pointers[i];
                events.push(Event::Touch {
                    touch: Touch {
                        phase,
                        location: TouchPoint { x: p.x, y: p.y },
                        pointer_index: i,
                        id: p.id,
                        historical: p.historical,
                    },
                    pointer_count,
                });
                proof {
                    assert(events@ =~= touches.take(i + 1int));
                }
                i = i + 1;
            }
            proof {
                assert(events@ =~= touches);
            }
        },
        None => {},
    }
    events.push(Event::TouchEnd);
    events
}
} // verus!
