use vstd::prelude::*;

verus! {

/// The model of the presentation surface's configuration: the dimensions the
/// surface is currently bound to. The application mirrors every change of
/// this value onto the real surface.
#[derive(Clone, Copy, Debug, PartialEq, Eq, Structural)]
pub struct SurfaceConfig {
    pub width: u32,
    pub height: u32,
}

impl SurfaceConfig {
    /// The configuration the surface is first bound with at startup.
    pub fn new(width: u32, height: u32) -> (c: SurfaceConfig)
        ensures
            c == (SurfaceConfig { width, height }),
    {
        SurfaceConfig { width, height }
    }

    /// Re-binds the surface to the new dimensions, ignoring zero-area sizes
    /// (a minimized window must not lead to an invalid configuration).
    /// Returns whether the surface is to be re-bound.
    pub fn reconfigure(&mut self, width: u32, height: u32) -> (applied: bool)
        ensures
            width > 0 && height > 0 ==> *final(self) == (SurfaceConfig { width, height })
                && applied,
            !(width > 0 && height > 0) ==> *final(self) == *old(self) && !applied,
    {
        if width > 0 && height > 0 {
            self.width = width;
            self.height = height;
            true
        } else {
            false
        }
    }
}

} // verus!
