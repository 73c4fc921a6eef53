//! The demo itself: one black triangle drawn by a pass-through program.
use vstd::prelude::*;

use crate::gl_call::GlCall;
use crate::gl_consts;
use crate::program::{lookup, Program};
use crate::vertexarray::VertexArray;

verus! {

/// The vertex shader: passes a 2D position through.
pub const VS_SRC: &'static str =
    "#version 150\nin vec2 position;\nvoid main() {\n   gl_Position = vec4(position, 0.0, 1.0);\n}";

/// The fragment shader: opaque black.
pub const FS_SRC: &'static str =
    "#version 150\nout vec4 out_color;\nvoid main() {\n   out_color = vec4(0.0, 0.0, 0.0, 1.0);\n}";

/// Components of each vertex of the triangle.
pub const VERTEX_COMPONENTS: i32 = 2;

/// Vertices of the triangle.
pub const VERTEX_COUNT: i32 = 3;

/// Floats of vertex data of the triangle.
pub const VERTEX_DATA_LEN: usize = 6;

/// Sets up the triangle's vertex array on the generated objects `id` and
/// `vbo`: binds them and uploads the vertex data.
pub fn make_vertex_array(id: u32, vbo: u32) -> (r: (VertexArray, Vec<GlCall>))
    ensures
        r.0.array() == id,
        r.0.buffer() == vbo,
        r.1@ == seq![
            GlCall::BindVertexArray { array: id },
            GlCall::BindBuffer { target: gl_consts::ARRAY_BUFFER, buffer: vbo },
            GlCall::BindVertexArray { array: id },
            GlCall::BindBuffer { target: gl_consts::ARRAY_BUFFER, buffer: vbo },
            GlCall::BufferData {
                target: gl_consts::ARRAY_BUFFER,
                size: 24,
                usage: gl_consts::STATIC_DRAW,
            },
        ],
{
    let (va, mut calls) = VertexArray::new(id, vbo);
    let mut upload = va.set_data(VERTEX_DATA_LEN);
    calls.append(&mut upload);
    (va, calls)
}

/// Wires the linked demo program to its inputs and output: the fragment
/// output `out_color` goes to color number 0, and the attribute `position`
/// reads two floats per vertex. `None` where the program has no `position`.
pub fn configure_program(prog: &Program) -> (r: Option<Vec<GlCall>>)
    ensures
        lookup(prog.attrib_table(), "position"@) is None <==> r is None,
        r is Some ==> r->Some_0@.len() == 3,
        r is Some ==> r->Some_0@[0] == (GlCall::BindFragDataLocation {
            program: prog.handle(),
            color: 0,
            name: r->Some_0@[0]->BindFragDataLocation_name,
        }),
        r is Some ==> r->Some_0@[0]->BindFragDataLocation_name@ == "out_color"@,
        r is Some ==> r->Some_0@.subrange(1, 3) == seq![
            GlCall::EnableVertexAttribArray { index: prog.attrib_table()["position"@].id },
            GlCall::VertexAttribPointer {
                index: prog.attrib_table()["position"@].id,
                size: VERTEX_COMPONENTS,
                ty: gl_consts::FLOAT,
            },
        ],
{
    match prog.enable_vertex_array("position", VERTEX_COMPONENTS, gl_consts::FLOAT) {
        None => None,
        Some(mut attrib) => {
            let mut calls = prog.bind_frag_data_location("out_color", 0);
            let ghost rest = attrib@;
            calls.append(&mut attrib);
            assert(calls@.subrange(1, 3) =~= rest);
            Some(calls)
        },
    }
}

/// What one frame draws: the program made current, then the triangle.
pub fn render_frame(prog: &Program, va: &VertexArray) -> (r: Vec<GlCall>)
    ensures
        r@ == seq![
            GlCall::UseProgram { program: prog.handle() },
            GlCall::BindVertexArray { array: va.array() },
            GlCall::DrawArrays { mode: gl_consts::TRIANGLES, first: 0, count: VERTEX_COUNT },
        ],
{
    let mut calls = prog.bind();
    let mut draw = va.draw(gl_consts::TRIANGLES, 0, VERTEX_COUNT);
    calls.append(&mut draw);
    calls
}

} // verus!
