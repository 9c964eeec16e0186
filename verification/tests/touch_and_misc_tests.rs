use exposed::destroy::{Destroy, Destroyable};
use exposed::error::{MessageLevel, WindowError};
use exposed::events::{MouseButton, WHEEL_DELTA};
use exposed::gl::gles;
use exposed::gl::picker::{GlConfigPicker, GlDefaultPicker, GlPixelFormat};
use exposed::gl::tokens;
use exposed::gl::win32_gl;
use exposed::gl::win32_opengl;
use exposed::key_gen::{KeyDef, Os};
use exposed::runloop::{next_run_action, RunAction};
use exposed::touch::{distance_sq, pinch_delta_sq, Touch, TouchPhase, TouchPoint};

#[test]
fn pinch_delta_matches_the_distance_change() {
    // Two pointers move apart: the distance grows from 3 to 5 pixels.
    let a = Touch {
        phase: TouchPhase::Moved,
        location: TouchPoint { x: 3, y: 0 },
        pointer_index: 0,
        id: 1,
        historical: Some(TouchPoint { x: 0, y: 0 }),
    };
    let b = Touch {
        phase: TouchPhase::Moved,
        location: TouchPoint { x: 0, y: 4 },
        pointer_index: 1,
        id: 2,
        historical: Some(TouchPoint { x: 0, y: 3 }),
    };
    let delta_sq = pinch_delta_sq(&a, &b).unwrap();
    assert_eq!(delta_sq, 25 - 9);

    let current = (distance_sq(a.location, b.location) as f64).sqrt();
    let historical = (distance_sq(a.historical().unwrap(), b.historical().unwrap()) as f64).sqrt();
    assert!((current - historical - 2.0).abs() < 1e-5);

    // Without history on either pointer there is no delta.
    let no_history = Touch { historical: None, ..a };
    assert_eq!(pinch_delta_sq(&no_history, &b), None);
}

#[test]
fn touch_delta_is_current_minus_historical() {
    let t = Touch {
        phase: TouchPhase::Moved,
        location: TouchPoint { x: 10, y: 20 },
        pointer_index: 0,
        id: 5,
        historical: Some(TouchPoint { x: 4, y: 5 }),
    };
    assert_eq!(t.delta(), Some((6, 15)));
    let t = Touch { historical: None, ..t };
    assert_eq!(t.delta(), None);
}

#[test]
fn error_messages_name_their_conditions() {
    assert_eq!(
        WindowError::HandlerExists.message(),
        "Single event handler is allowed per thread."
    );
    assert_eq!(WindowError::WindowExists.message(), "Only one window can be created.");
    assert_eq!(WindowError::DestroyedWhileWaiting.message(), "Received a destroy notification!");
    assert!(!WindowError::Os(3).message().is_empty());
    assert!(!WindowError::LibNotLoaded.message().is_empty());
    assert_ne!(MessageLevel::Error, MessageLevel::Warn);
}

#[test]
fn mouse_buttons_and_wheel_units() {
    assert_eq!(MouseButton::left(), MouseButton(1));
    assert_eq!(MouseButton::middle(), MouseButton(2));
    assert_eq!(MouseButton::right(), MouseButton(3));
    assert_eq!(WHEEL_DELTA, 120);
}

#[test]
fn run_loop_decisions() {
    assert_eq!(next_run_action(false, true, true), RunAction::Exit);
    assert_eq!(next_run_action(true, true, true), RunAction::PollDispatch);
    assert_eq!(next_run_action(true, true, false), RunAction::FinishPolling);
    assert_eq!(next_run_action(true, false, false), RunAction::WaitDispatch);
}

struct Closable {
    closed: bool,
}

impl Destroy for Closable {
    fn destroy(&mut self) -> Result<(), WindowError> {
        self.closed = true;
        Ok(())
    }
}

#[test]
fn destroyable_hands_the_value_through() {
    let d = Destroyable::new(Closable { closed: false });
    let mut inner = d.into_inner();
    assert!(!inner.closed);
    assert_eq!(inner.destroy(), Ok(()));
    assert!(inner.closed);
}

#[test]
fn default_picker_prefers_samples_then_color_depth() {
    let mut picker = GlDefaultPicker::new();
    let plain = GlPixelFormat { format: 1, color_bits: 32, sample_buffers: 0, samples: 0 };
    assert_eq!(picker.pick(plain), Some(1));
    let sampled = GlPixelFormat { format: 2, color_bits: 24, sample_buffers: 1, samples: 4 };
    assert_eq!(picker.pick(sampled), Some(2));
    let worse = GlPixelFormat { format: 3, color_bits: 16, sample_buffers: 1, samples: 2 };
    assert_eq!(picker.pick(worse), None);
    let deeper = GlPixelFormat { format: 4, color_bits: 32, sample_buffers: 1, samples: 4 };
    assert_eq!(picker.pick(deeper), Some(4));
}

#[test]
fn egl_attrib_list_matches_the_configuration() {
    let builder = gles::GlSurfaceBuilder::new();
    assert_eq!(
        builder.attrib_list(),
        vec![
            tokens::EGL_SURFACE_TYPE,
            tokens::EGL_WINDOW_BIT,
            tokens::EGL_BLUE_SIZE,
            8,
            tokens::EGL_GREEN_SIZE,
            8,
            tokens::EGL_RED_SIZE,
            8,
            tokens::EGL_ALPHA_SIZE,
            8,
            tokens::EGL_NONE,
        ]
    );
}

#[test]
fn wgl_context_attribs_follow_version_and_debug() {
    let builder = win32_gl::GlContextBuilder::new().with_version(4, 6).with_debug();
    assert_eq!(
        builder.context_attribs(),
        vec![
            tokens::CONTEXT_MAJOR_VERSION_ARB,
            4,
            tokens::CONTEXT_MINOR_VERSION_ARB,
            6,
            tokens::CONTEXT_PROFILE_MASK_ARB,
            tokens::CONTEXT_CORE_PROFILE_BIT_ARB,
            tokens::CONTEXT_FLAGS_ARB,
            tokens::CONTEXT_DEBUG_BIT_ARB,
            0,
        ]
    );

    let mut legacy = win32_opengl::GlContextBuilder::new();
    legacy.with_version(4, 1);
    legacy.with_debug();
    assert_eq!(legacy.context_attribs[1], 4);
    assert_eq!(legacy.context_attribs[3], 1);
    assert_eq!(legacy.context_attribs[7], tokens::CONTEXT_DEBUG_BIT_ARB);

    let surface = win32_gl::GlSurfaceBuilder::new();
    assert_eq!(surface.pixel_format_attribs.len(), 19);
    assert_eq!(surface.pixel_format_attribs[0], tokens::DRAW_TO_WINDOW_ARB);
    let display = win32_opengl::GlDisplayBuilder::new();
    assert_eq!(display.pixel_format_attribs.len(), 17);
}

#[test]
fn glx_entry_points_want_the_library_loaded() {
    let r: Result<u32, WindowError> = exposed::gl::glx::lib_not_loaded_err();
    assert_eq!(r, Err(WindowError::LibNotLoaded));
    let r: Result<(), WindowError> = exposed::gl::x11_gl::lib_not_loaded_err();
    assert_eq!(r, Err(WindowError::LibNotLoaded));
}

#[test]
fn key_defs_answer_per_backend() {
    let def = KeyDef {
        name: "ESCAPE".to_string(),
        windows: "VK_ESCAPE".to_string(),
        linux: "XK_Escape".to_string(),
        android: "AKEYCODE_ESCAPE".to_string(),
    };
    assert_eq!(def.get_value(Os::Windows).as_str(), "VK_ESCAPE");
    assert_eq!(def.get_value(Os::Linux).as_str(), "XK_Escape");
    assert_eq!(def.get_value(Os::Android).as_str(), "AKEYCODE_ESCAPE");
}
