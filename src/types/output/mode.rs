//! Output modes.
use vstd::prelude::*;

verus! {

/// One mode an output supports, as the native side describes it.
#[derive(Debug, Clone, Copy, PartialEq, Eq, Structural)]
pub struct Mode {
    width: i32,
    height: i32,
    refresh: i32,
}

impl Mode {
    /// A mode of `width` by `height` pixels refreshing at `refresh` mHz.
    pub fn new(width: i32, height: i32, refresh: i32) -> (m: Mode)
        ensures
            m.dimensions_spec() == (width, height),
            m.refresh_spec() == refresh,
    {
        Mode { width, height, refresh }
    }

    pub closed spec fn dimensions_spec(&self) -> (i32, i32) {
        (self.width, self.height)
    }

    pub closed spec fn refresh_spec(&self) -> i32 {
        self.refresh
    }

    /// The dimensions of this mode, as (width, height).
    pub fn dimensions(&self) -> (r: (i32, i32))
        ensures
            r == self.dimensions_spec(),
    {
        (self.width, self.height)
    }

    /// The refresh rate of this mode.
    pub fn refresh(&self) -> (r: i32)
        ensures
            r == self.refresh_spec(),
    {
        self.refresh
    }
}

} // verus!
