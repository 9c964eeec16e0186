//! The GLX-backed surface configuration.

use vstd::prelude::*;

use crate::error::WindowError;

verus! {

/// The error of using a GLX entry point before the library was loaded.
pub fn lib_not_loaded_err<T>() -> (r: Result<T, WindowError>)
    ensures r == Err::<T, WindowError>(WindowError::LibNotLoaded),
{
    Err(WindowError::LibNotLoaded)
}

} // verus!
