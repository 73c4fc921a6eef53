//! A small OpenGL demo toolkit: shader compilation results, program linking
//! with attribute and uniform introspection, vertex arrays and the window
//! setup of the demo, each stated as the driver calls it decides on.

pub mod demo;
pub mod engine;
pub mod gl_call;
pub mod gl_consts;
pub mod program;
pub mod shader;
pub mod utils;
pub mod vertexarray;
