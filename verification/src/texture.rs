//! Textures as the verified core sees them: an opaque GPU handle. The
//! driver layer decodes the image file and uploads the pixels; the core
//! only carries the handle to bind at draw time.

use vstd::prelude::*;

verus! {

/// A GPU texture handle.
#[derive(Debug, Copy, Clone, PartialEq, Eq, Structural)]
pub struct Texture {
    pub id: u32,
}

impl Texture {
    /// Wraps the handle of a texture the driver created and filled.
    pub fn from_raw(id: u32) -> (r: Texture)
        ensures
            r.id == id,
    {
        Texture { id }
    }

    /// The GPU handle.
    pub fn id(&self) -> (r: u32)
        ensures
            r == self.id,
    {
        self.id
    }
}

} // verus!
