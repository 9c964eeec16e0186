//! Error taxonomy of the windowing core.
//!
//! Operating-system resource failures carry the native error code; protocol
//! violations (building a second event handler on one thread, requesting a
//! second window) are distinct variants so callers can match on them.

use vstd::prelude::*;

verus! {

/// Severity attached to a message handed to an embedding host.
#[derive(Clone, Copy, Debug, PartialEq, Eq, Structural)]
pub enum MessageLevel {
    Error,
    Warn,
    Info,
    Debug,
}

/// An error from the windowing core.
#[derive(Clone, Copy, Debug, PartialEq, Eq, Structural)]
pub enum WindowError {
    /// An operating-system call failed; carries the native error code.
    Os(i32),
    /// A second event handler was built on a thread that already has one.
    HandlerExists,
    /// A second window was requested from a handler or activity context
    /// that already handed one out.
    WindowExists,
    /// The activity was destroyed while a window was awaited.
    DestroyedWhileWaiting,
    /// A lifecycle message arrived that needs a window to be present.
    WindowNotPresent,
    /// The application declined to start when its create step ran.
    CreateFailed,
    /// The operation is not available on this backend.
    NotSupported,
    /// A graphics entry point was used before its library was loaded.
    LibNotLoaded,
}

impl WindowError {
    /// A short description of the error, for logs and diagnostics.
    pub fn message(&self) -> (r: String)
        ensures
            self is Os ==> r@ == "An operating-system call failed."@,
            self is HandlerExists ==> r@ == "Single event handler is allowed per thread."@,
            self is WindowExists ==> r@ == "Only one window can be created."@,
            self is DestroyedWhileWaiting ==> r@ == "Received a destroy notification!"@,
            self is WindowNotPresent ==> r@
                == "A window needs to be present in order to get this message."@,
            self is CreateFailed ==> r@ == "Failed to create the application state."@,
            self is NotSupported ==> r@ == "Not implemented on this backend."@,
            self is LibNotLoaded ==> r@ == "The OpenGL library is not loaded; load it first."@,
    {
        match self {
            WindowError::Os(_) => "An operating-system call failed.".to_owned(),
            WindowError::HandlerExists => "Single event handler is allowed per thread.".to_owned(),
            WindowError::WindowExists => "Only one window can be created.".to_owned(),
            WindowError::DestroyedWhileWaiting => "Received a destroy notification!".to_owned(),
            WindowError::WindowNotPresent => {
                "A window needs to be present in order to get this message.".to_owned()
            },
            WindowError::CreateFailed => "Failed to create the application state.".to_owned(),
            WindowError::NotSupported => "Not implemented on this backend.".to_owned(),
            WindowError::LibNotLoaded => {
                "The OpenGL library is not loaded; load it first.".to_owned()
            },
        }
    }
}

} // verus!
