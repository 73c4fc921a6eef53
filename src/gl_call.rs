//! The driver calls that the library decides on. The library never talks to
//! the driver itself: each operation returns the calls to make, in order, and
//! the caller that owns the GL context performs them.
use vstd::prelude::*;

verus! {

/// One call into the graphics driver.
#[derive(Debug, Clone, PartialEq, Eq)]
pub enum GlCall {
    AttachShader { program: u32, shader: u32 },
    DetachShader { program: u32, shader: u32 },
    DeleteShader { shader: u32 },
    DeleteProgram { program: u32 },
    UseProgram { program: u32 },
    BindFragDataLocation { program: u32, color: u32, name: String },
    EnableVertexAttribArray { index: u32 },
    VertexAttribPointer { index: u32, size: i32, ty: u32 },
    BindVertexArray { array: u32 },
    BindBuffer { target: u32, buffer: u32 },
    BufferData { target: u32, size: usize, usage: u32 },
    DrawArrays { mode: u32, first: i32, count: i32 },
    DeleteBuffer { buffer: u32 },
    DeleteVertexArray { array: u32 },
}

/// How many times `calls` deletes the program object `program`.
pub open spec fn program_deletions(calls: Seq<GlCall>, program: u32) -> nat
    decreases calls.len(),
{
    if calls.len() == 0 {
        0
    } else {
        program_deletions(calls.drop_last(), program) + if calls.last() == (GlCall::DeleteProgram {
            program,
        }) {
            1nat
        } else {
            0nat
        }
    }
}

/// How many times `calls` deletes the shader object `shader`.
pub open spec fn shader_deletions(calls: Seq<GlCall>, shader: u32) -> nat
    decreases calls.len(),
{
    if calls.len() == 0 {
        0
    } else {
        shader_deletions(calls.drop_last(), shader) + if calls.last() == (GlCall::DeleteShader {
            shader,
        }) {
            1nat
        } else {
            0nat
        }
    }
}

/// Whether `calls` detaches any shader from `program`.
pub open spec fn detaches_from(calls: Seq<GlCall>, program: u32) -> bool {
    exists|i: int|
        0 <= i < calls.len() && #[trigger] calls[i] is DetachShader && calls[i]->DetachShader_program
            == program
}

} // verus!
