//! A GPU index buffer handle without a host mirror: the driver layer
//! creates and fills the buffer, the core carries the handle.

use vstd::prelude::*;

verus! {

/// A GPU index buffer handle.
#[derive(Debug, Copy, Clone, PartialEq, Eq, Structural)]
pub struct IndexBuffer {
    pub renderer_id: u32,
}

impl IndexBuffer {
    /// Wraps the handle of a buffer the driver created and filled.
    pub fn from_raw(renderer_id: u32) -> (r: IndexBuffer)
        ensures
            r.renderer_id == renderer_id,
    {
        IndexBuffer { renderer_id }
    }

    /// The GPU handle.
    pub fn renderer_id(&self) -> (r: u32)
        ensures
            r == self.renderer_id,
    {
        self.renderer_id
    }
}

} // verus!
