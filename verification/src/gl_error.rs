//! Decoding of OpenGL error codes into their enum names, used by the
//! driver layer's debug-build error polling to panic with readable
//! diagnostics.

use vstd::prelude::*;

verus! {

broadcast use vstd::string::to_string_from_display_ensures_for_str;

/// The OpenGL error code for an invalid enum argument.
pub const GL_INVALID_ENUM: u32 = 0x0500;

/// The OpenGL error code for an out-of-range value argument.
pub const GL_INVALID_VALUE: u32 = 0x0501;

/// The OpenGL error code for an operation illegal in the current state.
pub const GL_INVALID_OPERATION: u32 = 0x0502;

/// The OpenGL error code for a stack overflow.
pub const GL_STACK_OVERFLOW: u32 = 0x0503;

/// The OpenGL error code for a stack underflow.
pub const GL_STACK_UNDERFLOW: u32 = 0x0504;

/// The OpenGL error code for an out-of-memory condition.
pub const GL_OUT_OF_MEMORY: u32 = 0x0505;

/// The OpenGL error code for an operation on an incomplete framebuffer.
pub const GL_INVALID_FRAMEBUFFER_OPERATION: u32 = 0x0506;

/// The enum name belonging to an OpenGL error code.
pub open spec fn spec_gl_error_name(code: u32) -> Seq<char> {
    if code == GL_INVALID_ENUM {
        "INVALID_ENUM"@
    } else if code == GL_INVALID_VALUE {
        "INVALID_VALUE"@
    } else if code == GL_INVALID_OPERATION {
        "INVALID_OPERATION"@
    } else if code == GL_INVALID_FRAMEBUFFER_OPERATION {
        "INVALID_FRAMEBUFFER_OPERATION"@
    } else if code == GL_OUT_OF_MEMORY {
        "OUT_OF_MEMORY"@
    } else if code == GL_STACK_UNDERFLOW {
        "STACK_UNDERFLOW"@
    } else if code == GL_STACK_OVERFLOW {
        "STACK_OVERFLOW"@
    } else {
        "Unknown Error"@
    }
}

/// The enum name of an OpenGL error code, for diagnostics.
pub fn gl_get_error_name(error_code: &u32) -> (r: String)
    ensures
        r@ == spec_gl_error_name(*error_code),
{
    let name: &str = match *error_code {
        GL_INVALID_ENUM => "INVALID_ENUM",
        GL_INVALID_VALUE => "INVALID_VALUE",
        GL_INVALID_OPERATION => "INVALID_OPERATION",
        GL_INVALID_FRAMEBUFFER_OPERATION => "INVALID_FRAMEBUFFER_OPERATION",
        GL_OUT_OF_MEMORY => "OUT_OF_MEMORY",
        GL_STACK_UNDERFLOW => "STACK_UNDERFLOW",
        GL_STACK_OVERFLOW => "STACK_OVERFLOW",
        _ => "Unknown Error",
    };
    name.to_string()
}

} // verus!
