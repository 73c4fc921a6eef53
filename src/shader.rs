//! Shaders: one compiled GPU shader object of a given stage.
use vstd::prelude::*;
use vstd::string::StringExecFns;

use crate::gl_call::GlCall;
use crate::gl_consts;
use crate::utils::{ascii_chars, buffer_text, c_text, charbuf_to_str, is_ascii_bytes};

verus! {

/// A failed compile, with the driver's log.
#[derive(Debug)]
pub struct ShaderError {
    pub msg: String,
}

impl ShaderError {
    pub fn new(msg: String) -> (r: ShaderError)
        ensures
            r.msg@ == msg@,
    {
        ShaderError { msg }
    }

    /// The error as a line of text.
    pub fn to_str(&self) -> (r: String)
        ensures
            r@ == "Shader error: "@ + self.msg@,
    {
        let mut r = String::from_str("Shader error: ");
        r.append(self.msg.as_str());
        r
    }
}

/// The pipeline stage that a shader is compiled for.
#[derive(Debug, Clone, Copy, PartialEq, Eq, Structural)]
pub enum ShaderType {
    VertexShaderType,
    TessControlShaderType,
    TessEvaluationShaderType,
    GeometryShaderType,
    FragmentShaderType,
}

/// The driver's enumerant for each stage.
pub open spec fn stage_enum(ty: ShaderType) -> u32 {
    match ty {
        ShaderType::VertexShaderType => gl_consts::VERTEX_SHADER,
        ShaderType::TessControlShaderType => gl_consts::TESS_CONTROL_SHADER,
        ShaderType::TessEvaluationShaderType => gl_consts::TESS_EVALUATION_SHADER,
        ShaderType::GeometryShaderType => gl_consts::GEOMETRY_SHADER,
        ShaderType::FragmentShaderType => gl_consts::FRAGMENT_SHADER,
    }
}

impl ShaderType {
    /// The enumerant to create a shader object of this stage with.
    pub fn gl_enum(self) -> (r: u32)
        ensures
            r == stage_enum(self),
    {
        match self {
            ShaderType::VertexShaderType => gl_consts::VERTEX_SHADER,
            ShaderType::TessControlShaderType => gl_consts::TESS_CONTROL_SHADER,
            ShaderType::TessEvaluationShaderType => gl_consts::TESS_EVALUATION_SHADER,
            ShaderType::GeometryShaderType => gl_consts::GEOMETRY_SHADER,
            ShaderType::FragmentShaderType => gl_consts::FRAGMENT_SHADER,
        }
    }
}

/// A compiled shader object, owned by exactly one value.
#[derive(Debug)]
pub struct Shader {
    pub id: u32,
    pub ty: ShaderType,
}

impl Shader {
    /// Settles the compile of shader object `id` of stage `ty`: `compiled` is the
    /// driver's compile status and `log` the info log it wrote.
    ///
    /// A compiled object becomes a `Shader` and nothing is called. A failed one
    /// is deleted, and the error carries the log's text.
    pub fn new(ty: ShaderType, id: u32, compiled: bool, log: &[u8]) -> (r: (
        Result<Shader, ShaderError>,
        Vec<GlCall>,
    ))
        ensures
            compiled ==> r.0 is Ok && r.0->Ok_0.id == id && r.0->Ok_0.ty == ty && r.1@.len() == 0,
            !compiled ==> r.0 is Err && r.0->Err_0.msg@ == buffer_text(log@) && r.1@ == seq![
                GlCall::DeleteShader { shader: id },
            ],
            !compiled && is_ascii_bytes(c_text(log@)) ==> r.0->Err_0.msg@ == ascii_chars(
                c_text(log@),
            ),
    {
        if compiled {
            (Ok(Shader { id, ty }), Vec::new())
        } else {
            let msg = charbuf_to_str(log);
            let calls = vec![GlCall::DeleteShader { shader: id }];
            (Err(ShaderError::new(msg)), calls)
        }
    }

    /// Gives the shader object back to the driver.
    pub fn release(self) -> (r: Vec<GlCall>)
        ensures
            r@ == seq![GlCall::DeleteShader { shader: self.id }],
    {
        vec![GlCall::DeleteShader { shader: self.id }]
    }
}

} // verus!
