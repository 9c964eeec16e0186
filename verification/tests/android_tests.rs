use exposed::android::{
    decode_motion, touch_phase_of_action, wait_state_of, ActivityContext, BuildResult,
    LifecycleEvent, MotionEventData, MotionPointer, WaitState, WindowBuilder, WindowHandle,
};
use exposed::error::WindowError;
use exposed::events::Event;
use exposed::touch::{TouchPhase, TouchPoint};

#[test]
fn builder_waits_for_the_window_and_attaches_once() {
    let mut context = ActivityContext::new();
    let builder = WindowBuilder::new();
    let incoming = vec![
        LifecycleEvent::Create,
        LifecycleEvent::InputQueueCreated { queue: 7 },
        LifecycleEvent::NativeWindowCreated { window: 9, width: 640, height: 480 },
    ];
    let r = builder.build(&mut context, &incoming);
    assert!(matches!(r, BuildResult::Ready(_)));
    assert!(context.window_created);
    assert_eq!(context.attach_count, 1);
    assert!(context.looper_attached);

    // The deciding callback is still pending; the run loop acknowledges
    // it and shows the window.
    let (events, exit) = context.handle_current();
    assert_eq!(events, vec![Event::Shown]);
    assert!(!exit);

    // Only one window exists per activity.
    let again = builder.build(&mut context, &vec![]);
    assert!(matches!(again, BuildResult::Failed(WindowError::WindowExists)));
}

#[test]
fn builder_gives_up_when_waiting_cannot_succeed() {
    let mut context = ActivityContext::new();
    let builder = WindowBuilder::new();

    let r = builder.build(&mut context, &vec![LifecycleEvent::Destroy]);
    assert!(matches!(r, BuildResult::Failed(WindowError::DestroyedWhileWaiting)));

    let mut context = ActivityContext::new();
    let r = builder.build(
        &mut context,
        &vec![LifecycleEvent::WindowFocusChanged { focused: true }],
    );
    assert!(matches!(r, BuildResult::Failed(WindowError::WindowNotPresent)));

    let mut context = ActivityContext::new();
    let r = builder.build(&mut context, &vec![]);
    assert!(matches!(r, BuildResult::Waiting));
}

#[test]
fn builder_acknowledges_messages_it_cannot_handle() {
    let mut context = ActivityContext::new();
    let builder = WindowBuilder::new();
    let incoming = vec![
        LifecycleEvent::SaveInstanceState,
        LifecycleEvent::LowMemory,
        LifecycleEvent::ConfigurationChanged,
    ];
    let r = builder.build(&mut context, &incoming);
    assert!(matches!(r, BuildResult::Waiting));
    // Every message was acknowledged, none left the runtime thread
    // parked, and the undigested ones were counted.
    assert!(!context.pending);
    assert_eq!(context.unhandled_messages, 2);
}

#[test]
fn run_loop_observes_callbacks_in_order() {
    let mut context = ActivityContext::new();
    let events = vec![
        LifecycleEvent::NativeWindowCreated { window: 1, width: 800, height: 600 },
        LifecycleEvent::NativeWindowResized { width: 1024, height: 768 },
        LifecycleEvent::NativeWindowRedrawNeeded,
        LifecycleEvent::LowMemory,
    ];
    let (out, exit) = context.process_all(&events);
    assert_eq!(
        out,
        vec![
            Event::Shown,
            Event::Resized { width: 1024, height: 768 },
            Event::Render,
        ]
    );
    assert!(!exit);
    assert!(!context.pending);

    // A destroy ends the loop; nothing after it is processed.
    let tail = vec![
        LifecycleEvent::Destroy,
        LifecycleEvent::NativeWindowResized { width: 10, height: 10 },
    ];
    let (out, exit) = context.process_all(&tail);
    assert!(out.is_empty());
    assert!(exit);
}

#[test]
fn window_destruction_minimizes_and_clears_the_window() {
    let mut context = ActivityContext::new();
    let events = vec![
        LifecycleEvent::NativeWindowCreated { window: 3, width: 320, height: 200 },
    ];
    let (out, _) = context.process_all(&events);
    assert_eq!(out, vec![Event::Shown]);

    let handle = WindowHandle {};
    let size = handle.client_size(&context).unwrap();
    assert_eq!(size.width, 320);
    assert_eq!(size.height, 200);

    let (out, exit) = context.process(&LifecycleEvent::NativeWindowDestroyed);
    assert_eq!(out, vec![Event::Minimized]);
    assert!(!exit);
    assert_eq!(handle.client_size(&context), Err(WindowError::WindowNotPresent));
}

#[test]
fn input_queue_changes_drive_attachment() {
    let mut context = ActivityContext::new();
    let (_, _) = context.process(&LifecycleEvent::InputQueueCreated { queue: 11 });
    assert!(context.looper_attached);
    assert_eq!(context.attach_count, 1);
    let (_, _) = context.process(&LifecycleEvent::InputQueueDestroyed);
    assert!(!context.looper_attached);
    let (_, _) = context.process(&LifecycleEvent::InputQueueCreated { queue: 12 });
    assert!(context.looper_attached);
    assert_eq!(context.attach_count, 2);
}

#[test]
fn create_without_a_window_ends_the_loop() {
    let mut context = ActivityContext::new();
    let (out, exit) = context.process_all(&vec![LifecycleEvent::Create]);
    assert!(out.is_empty());
    assert!(exit);
}

#[test]
fn wake_renders_once_and_state_is_saved_empty() {
    let context = ActivityContext::new();
    assert_eq!(context.wake_render(), vec![Event::Render]);
    assert!(context.saved_instance_state().is_empty());
    assert_eq!(context.waits_at(), WaitState::Unset);
}

#[test]
fn wait_states_match_their_callbacks() {
    assert_eq!(wait_state_of(&LifecycleEvent::Create), WaitState::OnCreate);
    assert_eq!(wait_state_of(&LifecycleEvent::Destroy), WaitState::OnDestroy);
    assert_eq!(
        wait_state_of(&LifecycleEvent::NativeWindowCreated { window: 0, width: 0, height: 0 }),
        WaitState::OnNativeWindowCreated
    );
    assert_eq!(
        wait_state_of(&LifecycleEvent::InputQueueDestroyed),
        WaitState::OnInputQueueDestroyed
    );
    assert_eq!(wait_state_of(&LifecycleEvent::LowMemory), WaitState::OnLowMemory);
}

#[test]
fn window_handle_capability_gaps() {
    let handle = WindowHandle {};
    assert_eq!(handle.show(), Ok(()));
    handle.set_capture();
    assert_eq!(handle.release_capture(), Ok(()));
    assert_eq!(handle.redraw(), Ok(()));
    assert_eq!(handle.window_title(), Err(WindowError::NotSupported));
    assert_eq!(handle.set_window_title("ignored"), Err(WindowError::NotSupported));
    assert_eq!(handle.dpi(), Err(WindowError::NotSupported));
}

#[test]
fn motion_actions_map_to_phases() {
    assert_eq!(touch_phase_of_action(0), Some(TouchPhase::Started));
    assert_eq!(touch_phase_of_action(1), Some(TouchPhase::Ended));
    assert_eq!(touch_phase_of_action(2), Some(TouchPhase::Moved));
    assert_eq!(touch_phase_of_action(3), Some(TouchPhase::Cancelled));
    assert_eq!(touch_phase_of_action(5), Some(TouchPhase::Started));
    assert_eq!(touch_phase_of_action(6), Some(TouchPhase::Ended));
    assert_eq!(touch_phase_of_action(4), None);
    // Only the masked byte decides.
    assert_eq!(touch_phase_of_action(0x0102), Some(TouchPhase::Moved));
}

#[test]
fn motion_events_deliver_every_pointer_then_the_marker() {
    let motion = MotionEventData {
        action: 2,
        pointers: vec![
            MotionPointer { id: 10, x: 100, y: 200, historical: Some(TouchPoint { x: 90, y: 190 }) },
            MotionPointer { id: 11, x: 300, y: 400, historical: None },
        ],
    };
    let events = decode_motion(&motion);
    assert_eq!(events.len(), 3);
    match &events[0] {
        Event::Touch { touch, pointer_count } => {
            assert_eq!(*pointer_count, 2);
            assert_eq!(touch.id, 10);
            assert_eq!(touch.pointer_index, 0);
            assert_eq!(touch.phase, TouchPhase::Moved);
            assert_eq!(touch.location, TouchPoint { x: 100, y: 200 });
            assert_eq!(touch.historical(), Some(TouchPoint { x: 90, y: 190 }));
        },
        other => panic!("expected a touch event, got {:?}", other),
    }
    match &events[1] {
        Event::Touch { touch, .. } => {
            assert_eq!(touch.id, 11);
            assert_eq!(touch.pointer_index, 1);
            assert_eq!(touch.historical(), None);
        },
        other => panic!("expected a touch event, got {:?}", other),
    }
    assert_eq!(events[2], Event::TouchEnd);

    // An action with no touch sample yields the marker alone.
    let motion = MotionEventData { action: 4, pointers: vec![] };
    assert_eq!(decode_motion(&motion), vec![Event::TouchEnd]);
}
