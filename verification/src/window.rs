//! The size of the rendering surface.
use vstd::prelude::*;

verus! {

/// Width and height of the rendering surface, in physical pixels.
#[derive(Clone, Copy, PartialEq, Eq, Structural, Debug)]
pub struct SurfaceSize {
    pub width: u32,
    pub height: u32,
}

impl SurfaceSize {
    /// Follows a resize of the window. A size with no area (a minimised
    /// window) is ignored, since a surface cannot be configured with it.
    /// Returns whether the size changed to `new_size`, in which case the
    /// surface must be configured again.
    pub fn resize(&mut self, new_size: SurfaceSize) -> (reconfigure: bool)
        ensures
            reconfigure == (new_size.width > 0 && new_size.height > 0),
            reconfigure ==> *final(self) == new_size,
            !reconfigure ==> *final(self) == *old(self),
    {
        if new_size.width > 0 && new_size.height > 0 {
            *self = new_size;
            true
        } else {
            false
        }
    }
}

} // verus!
