//! Two-phase destruction.
//!
//! Native resources are released by an explicit `destroy` call that can
//! fail; [`Destroyable`] marks a value whose destroy call is still owed.

use vstd::prelude::*;

use crate::error::WindowError;

verus! {

/// A cleanup step that can fail. Backends implement it for handles whose
/// native resource must be released explicitly.
pub trait Destroy {
    fn destroy(&mut self) -> Result<(), WindowError>;
}

/// A value whose destroy call is still owed. Taking the inner value back
/// hands that obligation to the caller.
pub struct Destroyable<T: Destroy>(pub T);

impl<T: Destroy> Destroyable<T> {
    /// Wraps a value whose destroy call is owed.
    pub fn new(x: T) -> (d: Destroyable<T>)
        ensures d.0 == x,
    {
        Destroyable(x)
    }

    /// Returns the inner value; the caller now owes the destroy call.
    pub fn into_inner(self) -> (r: T)
        ensures r == self.0,
    {
        self.0
    }
}

} // verus!
