//! The OpenGL enumerants that the library hands to the driver.
use vstd::prelude::*;

verus! {

/// `GL_VERTEX_SHADER`.
pub const VERTEX_SHADER: u32 = 0x8B31;

/// `GL_TESS_CONTROL_SHADER`.
pub const TESS_CONTROL_SHADER: u32 = 0x8E88;

/// `GL_TESS_EVALUATION_SHADER`.
pub const TESS_EVALUATION_SHADER: u32 = 0x8E87;

/// `GL_GEOMETRY_SHADER`.
pub const GEOMETRY_SHADER: u32 = 0x8DD9;

/// `GL_FRAGMENT_SHADER`.
pub const FRAGMENT_SHADER: u32 = 0x8B30;

/// `GL_TRIANGLES`.
pub const TRIANGLES: u32 = 0x0004;

/// `GL_FLOAT`.
pub const FLOAT: u32 = 0x1406;

/// `GL_ARRAY_BUFFER`.
pub const ARRAY_BUFFER: u32 = 0x8892;

/// `GL_STATIC_DRAW`.
pub const STATIC_DRAW: u32 = 0x88E4;

/// Size in bytes of one `GLfloat`.
pub const FLOAT_SIZE: usize = 4;

} // verus!
