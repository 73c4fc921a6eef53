use game::demo::{configure_program, make_vertex_array, render_frame, FS_SRC, VS_SRC};
use game::engine::Engine;
use game::gl_call::GlCall;
use game::gl_consts;
use game::program::{ActiveVar, LinkReport, Linker, Location, Program, ProgramError};
use game::shader::{Shader, ShaderError, ShaderType};
use game::utils::{c_text_len, charbuf_to_str};
use game::vertexarray::VertexArray;

const FLOAT_VEC2: u32 = 0x8B50;
const FLOAT_MAT4: u32 = 0x8B5C;

fn var(name: &str, ty: u32) -> ActiveVar {
    let mut buf = name.as_bytes().to_vec();
    buf.push(0);
    buf.push(0);
    ActiveVar { name: buf, ty }
}

fn compiled(ty: ShaderType, id: u32) -> Shader {
    let (r, calls) = Shader::new(ty, id, true, &[]);
    assert!(calls.is_empty());
    r.unwrap()
}

fn linker_with(id: u32, shaders: Vec<Shader>) -> Linker {
    let mut linker = Linker::new(id);
    for s in shaders {
        linker.attach(s);
    }
    linker
}

fn success(attribs: Vec<ActiveVar>, uniforms: Vec<ActiveVar>) -> LinkReport {
    LinkReport { linked: true, log: Vec::new(), attribs, uniforms }
}

#[test]
fn stage_enumerants() {
    assert_eq!(ShaderType::VertexShaderType.gl_enum(), 0x8B31);
    assert_eq!(ShaderType::TessControlShaderType.gl_enum(), 0x8E88);
    assert_eq!(ShaderType::TessEvaluationShaderType.gl_enum(), 0x8E87);
    assert_eq!(ShaderType::GeometryShaderType.gl_enum(), 0x8DD9);
    assert_eq!(ShaderType::FragmentShaderType.gl_enum(), 0x8B30);
}

#[test]
fn compiled_shader_of_each_stage_is_kept() {
    let stages = [
        ShaderType::VertexShaderType,
        ShaderType::TessControlShaderType,
        ShaderType::TessEvaluationShaderType,
        ShaderType::GeometryShaderType,
        ShaderType::FragmentShaderType,
    ];
    for (i, ty) in stages.iter().enumerate() {
        let id = i as u32 + 1;
        let (r, calls) = Shader::new(*ty, id, true, &[]);
        let s = r.unwrap();
        assert_eq!(s.id, id);
        assert_ne!(s.id, 0);
        assert_eq!(s.ty, *ty);
        assert!(calls.is_empty());
    }
}

#[test]
fn failed_compile_reports_log_and_deletes() {
    let log = b"0:3(1): error: syntax error, unexpected '}'\n\0";
    let (r, calls) = Shader::new(ShaderType::FragmentShaderType, 9, false, log);
    let e = r.unwrap_err();
    assert_eq!(e.msg, "0:3(1): error: syntax error, unexpected '}'\n");
    assert!(!e.msg.is_empty());
    assert_eq!(calls, vec![GlCall::DeleteShader { shader: 9 }]);
}

#[test]
fn shader_error_text() {
    let e = ShaderError::new("bad".to_string());
    assert_eq!(e.to_str(), "Shader error: bad");
}

#[test]
fn program_error_text() {
    let e = ProgramError::new("no main".to_string());
    assert_eq!(e.to_str(), "Program error: no main");
}

#[test]
fn shader_release_deletes_it() {
    let s = compiled(ShaderType::VertexShaderType, 4);
    assert_eq!(s.release(), vec![GlCall::DeleteShader { shader: 4 }]);
}

#[test]
fn charbuf_stops_at_zero() {
    assert_eq!(charbuf_to_str(b"position\0junk"), "position");
    assert_eq!(charbuf_to_str(b"all of it"), "all of it");
    assert_eq!(charbuf_to_str(b"\0abc"), "");
    assert_eq!(charbuf_to_str(b""), "");
    assert_eq!(c_text_len(b"ab\0cd\0"), 2);
    assert_eq!(c_text_len(b"abc"), 3);
}

#[test]
fn charbuf_decodes_utf8() {
    assert_eq!(charbuf_to_str(&[0x63, 0x61, 0x66, 0xC3, 0xA9, 0]), "caf\u{e9}");
    assert_eq!(charbuf_to_str(&[0x61, 0xFF, 0x62, 0]), "a\u{FFFD}b");
}

#[test]
fn attach_records_and_attaches() {
    let mut linker = Linker::new(7);
    assert_eq!(linker.id(), 7);
    let calls = linker.attach(compiled(ShaderType::VertexShaderType, 1));
    assert_eq!(calls, vec![GlCall::AttachShader { program: 7, shader: 1 }]);
    let calls = linker.attach(compiled(ShaderType::FragmentShaderType, 2));
    assert_eq!(calls, vec![GlCall::AttachShader { program: 7, shader: 2 }]);
}

#[test]
fn linked_program_tables() {
    let linker = linker_with(
        7,
        vec![compiled(ShaderType::VertexShaderType, 1), compiled(ShaderType::FragmentShaderType, 2)],
    );
    let report = success(
        vec![var("position", FLOAT_VEC2), var("color", FLOAT_VEC2)],
        vec![var("mvp", FLOAT_MAT4)],
    );
    let (r, calls) = Program::new(linker, &report);
    assert!(calls.is_empty());
    let prog = r.ok().unwrap();
    assert_eq!(prog.id(), 7);
    assert_eq!(prog.get_attrib("position"), Some(&Location { id: 0, ty: FLOAT_VEC2 }));
    assert_eq!(prog.get_attrib("color"), Some(&Location { id: 1, ty: FLOAT_VEC2 }));
    assert_eq!(prog.get_attrib("mvp"), None);
    assert_eq!(prog.get_attrib("normal"), None);
    assert_eq!(prog.get_uniform("mvp"), Some(&Location { id: 0, ty: FLOAT_MAT4 }));
    assert_eq!(prog.get_uniform("position"), None);
}

#[test]
fn later_entry_of_a_name_wins() {
    let linker = Linker::new(3);
    let report = success(vec![var("a", 1), var("b", 2), var("a", 3)], Vec::new());
    let prog = Program::new(linker, &report).0.ok().unwrap();
    assert_eq!(prog.get_attrib("a"), Some(&Location { id: 2, ty: 3 }));
    assert_eq!(prog.get_attrib("b"), Some(&Location { id: 1, ty: 2 }));
}

#[test]
fn failed_link_reports_log_and_releases_once() {
    let linker = linker_with(
        5,
        vec![compiled(ShaderType::VertexShaderType, 1), compiled(ShaderType::VertexShaderType, 2)],
    );
    let report = LinkReport {
        linked: false,
        log: b"error: main function defined twice\0".to_vec(),
        attribs: Vec::new(),
        uniforms: Vec::new(),
    };
    let (r, calls) = Program::new(linker, &report);
    let e = r.err().unwrap();
    assert_eq!(e.msg, "error: main function defined twice");
    assert!(!e.to_str().is_empty());
    assert_eq!(
        calls,
        vec![
            GlCall::DeleteProgram { program: 5 },
            GlCall::DeleteShader { shader: 1 },
            GlCall::DeleteShader { shader: 2 },
        ]
    );
    let deletes = calls.iter().filter(|c| **c == GlCall::DeleteProgram { program: 5 }).count();
    assert_eq!(deletes, 1);
    assert!(!calls.iter().any(|c| matches!(c, GlCall::DetachShader { .. })));
}

#[test]
fn unlinked_linker_release_detaches_nothing() {
    let linker = linker_with(6, vec![compiled(ShaderType::GeometryShaderType, 8)]);
    assert_eq!(
        linker.release(),
        vec![GlCall::DeleteProgram { program: 6 }, GlCall::DeleteShader { shader: 8 }]
    );
    assert_eq!(Linker::new(2).release(), vec![GlCall::DeleteProgram { program: 2 }]);
}

#[test]
fn linked_program_release() {
    let linker = linker_with(
        7,
        vec![compiled(ShaderType::VertexShaderType, 1), compiled(ShaderType::FragmentShaderType, 2)],
    );
    let prog = Program::new(linker, &success(Vec::new(), Vec::new())).0.ok().unwrap();
    assert_eq!(
        prog.release(),
        vec![
            GlCall::DetachShader { program: 7, shader: 1 },
            GlCall::DetachShader { program: 7, shader: 2 },
            GlCall::DeleteProgram { program: 7 },
            GlCall::DeleteShader { shader: 1 },
            GlCall::DeleteShader { shader: 2 },
        ]
    );
}

#[test]
fn program_bind_and_unbind() {
    let prog = Program::new(Linker::new(11), &success(Vec::new(), Vec::new())).0.ok().unwrap();
    assert_eq!(prog.bind(), vec![GlCall::UseProgram { program: 11 }]);
    assert_eq!(Program::unbind(), vec![GlCall::UseProgram { program: 0 }]);
}

#[test]
fn frag_data_location_and_vertex_array() {
    let report = success(vec![var("uv", FLOAT_VEC2), var("position", FLOAT_VEC2)], Vec::new());
    let prog = Program::new(Linker::new(4), &report).0.ok().unwrap();
    assert_eq!(
        prog.bind_frag_data_location("out_color", 1),
        vec![GlCall::BindFragDataLocation { program: 4, color: 1, name: "out_color".to_string() }]
    );
    assert_eq!(
        prog.enable_vertex_array("position", 2, gl_consts::FLOAT),
        Some(vec![
            GlCall::EnableVertexAttribArray { index: 1 },
            GlCall::VertexAttribPointer { index: 1, size: 2, ty: gl_consts::FLOAT },
        ])
    );
    assert_eq!(prog.enable_vertex_array("normal", 3, gl_consts::FLOAT), None);
}

#[test]
fn vertex_array_upload_and_draw() {
    let (va, calls) = VertexArray::new(2, 3);
    assert_eq!(va.id(), 2);
    assert_eq!(
        calls,
        vec![
            GlCall::BindVertexArray { array: 2 },
            GlCall::BindBuffer { target: gl_consts::ARRAY_BUFFER, buffer: 3 },
        ]
    );
    assert_eq!(
        va.set_data(6),
        vec![
            GlCall::BindVertexArray { array: 2 },
            GlCall::BindBuffer { target: gl_consts::ARRAY_BUFFER, buffer: 3 },
            GlCall::BufferData { target: gl_consts::ARRAY_BUFFER, size: 24, usage: gl_consts::STATIC_DRAW },
        ]
    );
    assert_eq!(
        va.draw(gl_consts::TRIANGLES, 0, 3),
        vec![
            GlCall::BindVertexArray { array: 2 },
            GlCall::DrawArrays { mode: gl_consts::TRIANGLES, first: 0, count: 3 },
        ]
    );
    assert_eq!(
        va.release(),
        vec![GlCall::DeleteBuffer { buffer: 3 }, GlCall::DeleteVertexArray { array: 2 }]
    );
}

#[test]
fn empty_upload() {
    let (va, _) = VertexArray::new(1, 1);
    let calls = va.set_data(0);
    assert_eq!(
        calls[2],
        GlCall::BufferData { target: gl_consts::ARRAY_BUFFER, size: 0, usage: gl_consts::STATIC_DRAW }
    );
}

#[test]
fn engine_window_settings() {
    let e = Engine::new();
    assert_eq!((e.width, e.height), (1280, 720));
    assert_eq!(e.title, "Demo");
    assert_eq!(e.context_version, (3, 2));
    assert!(e.core_profile);
    assert!(e.forward_compat);
    assert_eq!(e.samples, 4);
}

#[test]
fn demo_end_to_end() {
    assert!(VS_SRC.contains("in vec2 position;"));
    assert!(FS_SRC.contains("out vec4 out_color;"));
    let (va, setup) = make_vertex_array(1, 2);
    assert_eq!(setup.len(), 5);
    assert_eq!(
        setup[4],
        GlCall::BufferData { target: gl_consts::ARRAY_BUFFER, size: 24, usage: gl_consts::STATIC_DRAW }
    );
    let linker = linker_with(
        3,
        vec![compiled(ShaderType::VertexShaderType, 4), compiled(ShaderType::FragmentShaderType, 5)],
    );
    let prog = Program::new(linker, &success(vec![var("position", FLOAT_VEC2)], Vec::new()))
        .0
        .ok()
        .unwrap();
    assert!(prog.get_attrib("position").is_some());
    assert_eq!(
        configure_program(&prog),
        Some(vec![
            GlCall::BindFragDataLocation { program: 3, color: 0, name: "out_color".to_string() },
            GlCall::EnableVertexAttribArray { index: 0 },
            GlCall::VertexAttribPointer { index: 0, size: 2, ty: gl_consts::FLOAT },
        ])
    );
    assert_eq!(
        render_frame(&prog, &va),
        vec![
            GlCall::UseProgram { program: 3 },
            GlCall::BindVertexArray { array: 1 },
            GlCall::DrawArrays { mode: gl_consts::TRIANGLES, first: 0, count: 3 },
        ]
    );
}

#[test]
fn demo_program_without_position() {
    let prog = Program::new(Linker::new(3), &success(Vec::new(), Vec::new())).0.ok().unwrap();
    assert_eq!(configure_program(&prog), None);
}
