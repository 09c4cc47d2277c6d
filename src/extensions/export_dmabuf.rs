//! Support for the wlroots export DMA-BUF protocol.
//!
//! The protocol is unstable and can change.
use vstd::prelude::*;

verus! {

/// Manager that can export dmabufs for an output.
#[derive(Debug)]
pub struct ZManagerV1 {
    manager: usize,
}

impl ZManagerV1 {
    /// The address of the native global.
    pub closed spec fn ptr(&self) -> usize {
        self.manager
    }

    /// Wraps the global that the native `wlr_export_dmabuf_manager_v1_create` returned.
    /// Null means that the native side could not create it: `None`.
    pub fn new(manager_raw: usize) -> (r: Option<ZManagerV1>)
        ensures
            r is None <==> manager_raw == 0,
            r matches Some(m) ==> m.ptr() == manager_raw,
    {
        if manager_raw != 0 {
            Some(ZManagerV1 { manager: manager_raw })
        } else {
            None
        }
    }

    /// The address of the native global.
    pub fn as_ptr(&self) -> (r: usize)
        ensures
            r == self.ptr(),
    {
        self.manager
    }

    /// Gives up the global, handing back the address that the native
    /// destroy function must be called on.
    pub fn destroy(self) -> (r: usize)
        ensures
            r == self.ptr(),
    {
        self.manager
    }
}

} // verus!
