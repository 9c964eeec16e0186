//! The key-table generator's data model: a named key with the native
//! code it maps to on each backend.

use vstd::prelude::*;

verus! {

/// A target backend of the generated key table.
#[derive(Clone, Copy, Debug, PartialEq, Eq, Structural)]
pub enum Os {
    Windows,
    Linux,
    Android,
}

/// One key of the table: its generated constant name and the native
/// code expression it maps to on each backend.
#[derive(Clone, Debug)]
pub struct KeyDef {
    pub name: String,
    pub windows: String,
    pub linux: String,
    pub android: String,
}

impl KeyDef {
    /// The native code expression of this key on one backend.
    pub fn get_value(&self, os: Os) -> (r: &String)
        ensures
            os == Os::Windows ==> r == self.windows,
            os == Os::Linux ==> r == self.linux,
            os == Os::Android ==> r == self.android,
    {
        match os {
            Os::Windows => &self.windows,
            Os::Linux => &self.linux,
            Os::Android => &self.android,
        }
    }
}

} // verus!
