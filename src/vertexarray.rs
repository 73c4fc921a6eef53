//! Vertex arrays: a vertex-array object with the one buffer that feeds it.
use vstd::prelude::*;

use crate::gl_call::GlCall;
use crate::gl_consts;

verus! {

/// A vertex-array object and its vertex buffer, owned together.
#[derive(Debug)]
pub struct VertexArray {
    id: u32,
    vbo: u32,
}

impl VertexArray {
    /// The vertex-array object's id.
    pub closed spec fn array(&self) -> u32 {
        self.id
    }

    /// The buffer object's id.
    pub closed spec fn buffer(&self) -> u32 {
        self.vbo
    }

    /// The vertex-array object's id.
    pub fn id(&self) -> (r: u32)
        ensures
            r == self.array(),
    {
        self.id
    }

    /// Takes the newly generated vertex-array object `id` and buffer object
    /// `vbo`, and binds both.
    pub fn new(id: u32, vbo: u32) -> (r: (VertexArray, Vec<GlCall>))
        ensures
            r.0.array() == id,
            r.0.buffer() == vbo,
            r.1@ == seq![
                GlCall::BindVertexArray { array: id },
                GlCall::BindBuffer { target: gl_consts::ARRAY_BUFFER, buffer: vbo },
            ],
    {
        let calls = vec![
            GlCall::BindVertexArray { array: id },
            GlCall::BindBuffer { target: gl_consts::ARRAY_BUFFER, buffer: vbo },
        ];
        (VertexArray { id, vbo }, calls)
    }

    /// Uploads `len` floats as static draw data, the whole buffer at once.
    pub fn set_data(&self, len: usize) -> (r: Vec<GlCall>)
        requires
            len * gl_consts::FLOAT_SIZE <= usize::MAX,
        ensures
            r@ == seq![
                GlCall::BindVertexArray { array: self.array() },
                GlCall::BindBuffer { target: gl_consts::ARRAY_BUFFER, buffer: self.buffer() },
                GlCall::BufferData {
                    target: gl_consts::ARRAY_BUFFER,
                    size: (len * gl_consts::FLOAT_SIZE) as usize,
                    usage: gl_consts::STATIC_DRAW,
                },
            ],
    {
        vec![
            GlCall::BindVertexArray { array: self.id },
            GlCall::BindBuffer { target: gl_consts::ARRAY_BUFFER, buffer: self.vbo },
            GlCall::BufferData {
                target: gl_consts::ARRAY_BUFFER,
                size: len * gl_consts::FLOAT_SIZE,
                usage: gl_consts::STATIC_DRAW,
            },
        ]
    }

    /// Draws `count` vertices from vertex `first` on, as primitives `mode`.
    pub fn draw(&self, mode: u32, first: i32, count: i32) -> (r: Vec<GlCall>)
        ensures
            r@ == seq![
                GlCall::BindVertexArray { array: self.array() },
                GlCall::DrawArrays { mode, first, count },
            ],
    {
        vec![GlCall::BindVertexArray { array: self.id }, GlCall::DrawArrays { mode, first, count }]
    }

    /// Gives the buffer and the vertex-array object back to the driver.
    pub fn release(self) -> (r: Vec<GlCall>)
        ensures
            r@ == seq![
                GlCall::DeleteBuffer { buffer: self.buffer() },
                GlCall::DeleteVertexArray { array: self.array() },
            ],
    {
        vec![GlCall::DeleteBuffer { buffer: self.vbo }, GlCall::DeleteVertexArray { array: self.id }]
    }
}

} // verus!
