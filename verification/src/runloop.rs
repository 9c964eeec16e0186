//! The run-loop driver's decision rule.
//!
//! The driver glues an event handler and an application together: while
//! the application runs, an animating application busy-polls so frames
//! keep coming, and an idle one blocks until the next native event. The
//! blocking receives themselves happen in the pump outside the library;
//! the decision of what to do next is here.

use vstd::prelude::*;

verus! {

/// The per-frame hooks an application adds over its event callbacks so
/// the driver can run it. Implementers override only what they need.
pub trait ExtendedEvent {
    /// Called after each dispatched event.
    fn post_event(&mut self) {
    }

    /// Called once a polling burst has drained the queue.
    fn polled(&mut self) {
    }

    /// Whether frames should keep coming without waiting for events.
    fn is_animating(&mut self) -> bool {
        false
    }

    /// Whether the driver should keep going at all.
    fn is_running(&mut self) -> bool;
}

/// What the driver does next.
#[derive(Clone, Copy, Debug, PartialEq, Eq, Structural)]
pub enum RunAction {
    /// Leave the loop; the application asked to stop.
    Exit,
    /// Dispatch the message that polling just found, then decide again.
    PollDispatch,
    /// The polling burst is over: run the polled hook, then decide again.
    FinishPolling,
    /// Block for exactly one message, dispatch it, then decide again.
    WaitDispatch,
}

/// The driver's decision, from the application's two switches and
/// whether the last poll found a message: a stopped application exits;
/// an animating one dispatches whatever polling found and renders on;
/// an idle one blocks for the next message. Exactly one native event is
/// consumed per dispatch, never a batch.
pub fn next_run_action(running: bool, animating: bool, has_message: bool) -> (a: RunAction)
    ensures
        !running ==> a == RunAction::Exit,
        running && animating && has_message ==> a == RunAction::PollDispatch,
        running && animating && !has_message ==> a == RunAction::FinishPolling,
        running && !animating ==> a == RunAction::WaitDispatch,
{
    if !running {
        RunAction::Exit
    } else if animating {
        if has_message {
            RunAction::PollDispatch
        } else {
            RunAction::FinishPolling
        }
    } else {
        RunAction::WaitDispatch
    }
}

} // verus!
