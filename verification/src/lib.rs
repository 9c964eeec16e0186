//! A cross-platform windowing abstraction: event handlers, window builders
//! and window handles for Win32-, X11- and Android-style backends.
//!
//! The library holds the decision layer of each backend: native messages,
//! X events and Android lifecycle callbacks arrive as plain values and are
//! decoded into one uniform [`events::Event`] stream under exact contracts.
//! The operating-system calls themselves (message pumps, Xlib, the Android
//! looper) live outside the library and hand it these plain values.

use vstd::prelude::*;

pub mod android;
pub mod destroy;
pub mod error;
pub mod events;
pub mod gl;
pub mod key_gen;
pub mod runloop;
pub mod touch;
pub mod win32;
pub mod x11;

verus! {

/// Width and height of a window's client area, in pixels.
#[derive(Clone, Copy, Debug, PartialEq, Eq, Structural)]
pub struct Size {
    pub width: i32,
    pub height: i32,
}

/// A rectangle in screen or client coordinates.
#[derive(Clone, Copy, Debug, PartialEq, Eq, Structural)]
pub struct Rect {
    pub left: i32,
    pub top: i32,
    pub right: i32,
    pub bottom: i32,
}

} // verus!
