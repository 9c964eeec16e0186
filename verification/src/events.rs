//! The uniform event stream.
//!
//! Every backend decodes its native messages into values of [`Event`], so an
//! application handles one tagged union instead of three platform callback
//! sets. Wheel deltas are normalized across backends: they are expressed in
//! 1/120 notch units, and a positive delta always means "up / away from the
//! user", whatever the native encoding was.

use vstd::prelude::*;

use crate::touch::Touch;

verus! {

/// One native wheel notch, in the normalized 1/120 units of
/// [`Event::MouseWheel`].
pub const WHEEL_DELTA: i32 = 120;

/// A mouse button, wrapping the native button number.
///
/// The left, middle and right buttons use the same numbers on every backend;
/// extra buttons keep their native number offset by ten.
#[derive(Clone, Copy, Debug, Default, PartialEq, Eq, Structural)]
pub struct MouseButton(pub u32);

pub const MOUSE_BUTTON_LEFT: u32 = 1;
pub const MOUSE_BUTTON_MIDDLE: u32 = 2;
pub const MOUSE_BUTTON_RIGHT: u32 = 3;
pub const MOUSE_BUTTON_X1: u32 = 11;
pub const MOUSE_BUTTON_X2: u32 = 12;

impl MouseButton {
    /// The left mouse button.
    pub fn left() -> (r: Self)
        ensures r == MouseButton(MOUSE_BUTTON_LEFT),
    {
        MouseButton(MOUSE_BUTTON_LEFT)
    }

    /// The middle mouse button.
    pub fn middle() -> (r: Self)
        ensures r == MouseButton(MOUSE_BUTTON_MIDDLE),
    {
        MouseButton(MOUSE_BUTTON_MIDDLE)
    }

    /// The right mouse button.
    pub fn right() -> (r: Self)
        ensures r == MouseButton(MOUSE_BUTTON_RIGHT),
    {
        MouseButton(MOUSE_BUTTON_RIGHT)
    }
}

/// A keyboard key, wrapping the native virtual-key code or keysym.
#[derive(Clone, Copy, Debug, Default, PartialEq, Eq, Structural)]
pub struct Key(pub u64);

/// A hardware scan code.
pub type ScanCode = u32;

/// One decoded event, as a backend hands it to the application.
#[derive(Clone, Debug, PartialEq)]
pub enum Event {
    /// The window should render a frame.
    Render,
    /// The window was shown for the first time.
    Shown,
    /// The client area changed size, in pixels.
    Resized { width: i32, height: i32 },
    /// The window gained or lost keyboard focus.
    Focused { focused: bool },
    /// The window was minimized, or its native surface went away.
    Minimized,
    /// The window was maximized.
    Maximized,
    /// The window moved to a new position.
    Moved { x: i32, y: i32 },
    /// A file was dropped onto the window.
    FileReceived { path: String },
    /// The user asked to close the window; nothing was destroyed yet.
    CloseRequested,
    /// The native window object was destroyed.
    Destroyed,
    /// A key went down.
    KeyDown { key: Key, scancode: ScanCode },
    /// A key was released.
    KeyUp { key: Key, scancode: ScanCode },
    /// Text input produced a character.
    ReceivedCharacter { character: char },
    /// The wheel turned; deltas are in 1/120 notch units, positive is up.
    MouseWheel { delta_x: i32, delta_y: i32 },
    /// A mouse button went down.
    MouseButtonDown { button: MouseButton },
    /// A mouse button was released.
    MouseButtonRelease { button: MouseButton },
    /// The cursor moved, in window-relative coordinates.
    CursorMoved { x: i32, y: i32 },
    /// The cursor entered the window.
    CursorEntered,
    /// The cursor left the window.
    CursorLeft,
    /// Relative motion from a raw mouse input report.
    RawMouseMotion { delta_x: i32, delta_y: i32 },
    /// One touch pointer sample; `pointer_count` pointers are active.
    Touch { touch: Touch, pointer_count: usize },
    /// All pointers of one motion event were delivered.
    TouchEnd,
}


/// The wheel-normalization law, upward: a native wheel-up event — one
/// notch away from the user — decodes to the same signed delta on the
/// Win32-style and the X11-style backend: positive, one notch.
pub proof fn lemma_wheel_up_normalized(
    msg: crate::win32::Win32Msg,
    lc0: u16,
    lc1: u16,
    dw: crate::win32::Win32Decoded,
    ev: crate::x11::X11EventData,
    wm_delete: u64,
    reg: Map<u64, u64>,
    dx: crate::x11::X11Dispatch,
)
    requires
        msg.message == crate::win32::WM_MOUSEWHEEL,
        crate::win32::spec_wheel_value(msg.wparam) == WHEEL_DELTA,
        crate::win32::decode_post(msg, lc0, lc1, dw),
        ev == (crate::x11::X11EventData::ButtonPress { window: ev->ButtonPress_window, button: 4 }),
        crate::x11::dispatch_post(ev, wm_delete, reg, dx),
    ensures
        dw.events@ =~= seq![Event::MouseWheel { delta_x: 0, delta_y: WHEEL_DELTA }],
        dx.events@ =~= seq![Event::MouseWheel { delta_x: 0, delta_y: WHEEL_DELTA }],
        dw.events@ =~= dx.events@,
{
}

/// The wheel-normalization law, downward: a native wheel-down event
/// decodes to the opposite sign of wheel-up, again the same on both
/// backends.
pub proof fn lemma_wheel_down_normalized(
    msg: crate::win32::Win32Msg,
    lc0: u16,
    lc1: u16,
    dw: crate::win32::Win32Decoded,
    ev: crate::x11::X11EventData,
    wm_delete: u64,
    reg: Map<u64, u64>,
    dx: crate::x11::X11Dispatch,
)
    requires
        msg.message == crate::win32::WM_MOUSEWHEEL,
        crate::win32::spec_wheel_value(msg.wparam) == 0 - WHEEL_DELTA,
        crate::win32::decode_post(msg, lc0, lc1, dw),
        ev == (crate::x11::X11EventData::ButtonPress { window: ev->ButtonPress_window, button: 5 }),
        crate::x11::dispatch_post(ev, wm_delete, reg, dx),
    ensures
        dw.events@ =~= seq![Event::MouseWheel { delta_x: 0, delta_y: (0 - WHEEL_DELTA) as i32 }],
        dx.events@ =~= seq![Event::MouseWheel { delta_x: 0, delta_y: (0 - WHEEL_DELTA) as i32 }],
        dw.events@ =~= dx.events@,
{
}
} // verus!
