//! The data device manager global.
use vstd::prelude::*;

verus! {

/// The data device manager global for a display.
#[derive(Debug)]
pub struct Manager {
    manager: usize,
}

impl Manager {
    /// The address of the native global.
    pub closed spec fn ptr(&self) -> usize {
        self.manager
    }

    /// Wraps the global that the native `wlr_data_device_manager_create` returned.
    /// Null means that the native side could not create it: `None`.
    pub fn new(manager_raw: usize) -> (r: Option<Manager>)
        ensures
            r is None <==> manager_raw == 0,
            r matches Some(m) ==> m.ptr() == manager_raw,
    {
        if manager_raw != 0 {
            Some(Manager { manager: manager_raw })
        } else {
            None
        }
    }

    /// The address of the native global.
    pub fn as_ptr(&self) -> (r: usize)
        ensures
            r == self.ptr(),
    {
        self.manager
    }
}

} // verus!
