//! Shader objects as the verified core sees them: opaque GPU handles.
//! Compiling and linking happens in the driver layer, which hands the
//! resulting ids in; a failed compile or link is fatal there and no
//! handle ever reaches this module.

use vstd::prelude::*;

verus! {

/// The OpenGL enum value of the vertex shader stage.
pub const GL_VERTEX_SHADER: u32 = 0x8B31;

/// The OpenGL enum value of the fragment shader stage.
pub const GL_FRAGMENT_SHADER: u32 = 0x8B30;

/// A shader stage.
#[derive(Debug, Clone, Copy, PartialEq, Eq, Structural)]
pub enum ShaderType {
    Vertex,
    Fragment,
}

impl ShaderType {
    /// The OpenGL enum value of this stage.
    pub fn gl_value(&self) -> (r: u32)
        ensures
            r == (match *self {
                ShaderType::Vertex => GL_VERTEX_SHADER,
                ShaderType::Fragment => GL_FRAGMENT_SHADER,
            }),
    {
        match *self {
            ShaderType::Vertex => GL_VERTEX_SHADER,
            ShaderType::Fragment => GL_FRAGMENT_SHADER,
        }
    }
}

/// A compiled shader stage: an opaque GPU handle.
#[derive(Debug, Copy, Clone, PartialEq, Eq, Structural)]
pub struct Shader {
    pub id: u32,
}

impl Shader {
    /// Wraps the handle of a stage the driver compiled.
    pub fn from_raw(id: u32) -> (r: Shader)
        ensures
            r.id == id,
    {
        Shader { id }
    }

    /// The GPU handle.
    pub fn id(&self) -> (r: u32)
        ensures
            r == self.id,
    {
        self.id
    }
}

/// A linked shader program: an opaque GPU handle.
#[derive(Debug, Copy, Clone, PartialEq, Eq, Structural)]
pub struct ShaderProgram {
    pub id: u32,
}

impl ShaderProgram {
    /// Wraps the handle of a program the driver linked.
    pub fn from_raw(id: u32) -> (r: ShaderProgram)
        ensures
            r.id == id,
    {
        ShaderProgram { id }
    }

    /// The GPU handle.
    pub fn id(&self) -> (r: u32)
        ensures
            r == self.id,
    {
        self.id
    }
}

/// A linked shader program handle for pipelines built outside the
/// renderer; the same opaque-handle model as `ShaderProgram`.
#[derive(Debug, Copy, Clone, PartialEq, Eq, Structural)]
pub struct Program {
    pub id: u32,
}

impl Program {
    /// Wraps the handle of a program the driver linked.
    pub fn from_raw(id: u32) -> (r: Program)
        ensures
            r.id == id,
    {
        Program { id }
    }

    /// The GPU handle.
    pub fn id(&self) -> (r: u32)
        ensures
            r == self.id,
    {
        self.id
    }
}

} // verus!
