use res_errare::command::{GlCall, UniformValue};
use res_errare::constants::{FRAGMENT_SHADER, GEOMETRY_SHADER, VERTEX_SHADER};
use res_errare::shader::{
    create_fragment_shader, create_geometry_shader, create_program,
    create_vertex_shader, new_shader_program, Next, Phase, ProgramBuild, Reply, Request, Shader,
    ShaderError, StageKind, UniformWrite, MATRICES_BINDING, MATRICES_BLOCK, MISSING_UNIFORM,
};

/// What a construction did to the GPU keeping this test's books.
struct Books {
    next_handle: u32,
    live: Vec<u32>,
    requests: Vec<Request>,
    calls: Vec<GlCall>,
}

fn run(build: ProgramBuild, mut answer: impl FnMut(&Request, &mut Books) -> Reply) -> (Result<Shader, ShaderError>, Books) {
    let mut books = Books { next_handle: 1, live: vec![], requests: vec![], calls: vec![] };
    let mut build = build;
    loop {
        let request = build.request();
        let reply = answer(&request, &mut books);
        if let Reply::Handle(handle) = reply {
            let creates = matches!(request, Request::CreateShader { .. } | Request::CreateProgram);
            if creates && handle != 0 {
                books.live.push(handle);
            }
        }
        books.requests.push(request);
        let step = build.advance(reply);
        for call in &step.run {
            match call {
                GlCall::DeleteShader { shader: handle } | GlCall::DeleteProgram { program: handle } => {
                    let at = books.live.iter().position(|h| h == handle);
                    assert!(at.is_some(), "deleted an object that is not live");
                    books.live.remove(at.unwrap());
                },
                _ => {},
            }
        }
        books.calls.extend(step.run);
        match step.next {
            Next::Ask(next) => build = next,
            Next::Done(result) => return (result, books),
        }
    }
}

fn fresh(books: &mut Books) -> Reply {
    let handle = books.next_handle;
    books.next_handle += 1;
    Reply::Handle(handle)
}

fn all_is_well(request: &Request, books: &mut Books) -> Reply {
    match request {
        Request::CreateShader { .. } | Request::CreateProgram => fresh(books),
        Request::CompileShader { .. } | Request::LinkProgram { .. } => Reply::Status(true),
        Request::ShaderInfoLog { .. } | Request::ProgramInfoLog { .. } => Reply::Log(String::new()),
        Request::UniformBlockIndex { .. } => Reply::Handle(3),
    }
}

#[test]
fn invalid_fragment_source_fails_with_the_diagnostic_and_leaks_nothing() {
    let diagnostic = "0:3(7): error: syntax error, unexpected IDENTIFIER";
    let build = Shader::new("void main() {}", "this is no shader");
    let (result, books) = run(build, |request, books| match request {
        Request::CompileShader { source, .. } => Reply::Status(source != "this is no shader"),
        Request::ShaderInfoLog { .. } => Reply::Log(diagnostic.to_string()),
        other => all_is_well(other, books),
    });
    let error = result.unwrap_err();
    assert_eq!(
        error,
        ShaderError::Compile { stage: StageKind::Fragment, log: diagnostic.to_string() }
    );
    assert!(error.message().contains(diagnostic));
    assert_eq!(error.message(), format!("Shader compilation failed: {}", diagnostic));
    assert!(books.live.is_empty());
    assert_eq!(
        books.calls,
        vec![GlCall::DeleteShader { shader: 1 }, GlCall::DeleteShader { shader: 2 }]
    );
    assert_eq!(
        books.requests,
        vec![
            Request::CreateShader { stage: StageKind::Vertex },
            Request::CompileShader { shader: 1, source: "void main() {}".to_string() },
            Request::CreateShader { stage: StageKind::Fragment },
            Request::CompileShader { shader: 2, source: "this is no shader".to_string() },
            Request::ShaderInfoLog { shader: 2 },
        ]
    );
}

#[test]
fn program_of_two_stages_is_built_and_its_block_bound() {
    let (result, books) = run(Shader::new("vs", "fs"), all_is_well);
    let shader = result.unwrap();
    assert_eq!(shader.program, 3);
    assert!(shader.uniforms.is_empty());
    assert_eq!(books.live, vec![3]);
    assert_eq!(
        books.requests,
        vec![
            Request::CreateShader { stage: StageKind::Vertex },
            Request::CompileShader { shader: 1, source: "vs".to_string() },
            Request::CreateShader { stage: StageKind::Fragment },
            Request::CompileShader { shader: 2, source: "fs".to_string() },
            Request::CreateProgram,
            Request::LinkProgram { program: 3, vertex: 1, fragment: 2, geometry: None },
            Request::UniformBlockIndex { program: 3, name: "matrices" },
        ]
    );
    assert_eq!(
        books.calls,
        vec![
            GlCall::DeleteShader { shader: 1 },
            GlCall::DeleteShader { shader: 2 },
            GlCall::UniformBlockBinding { program: 3, block: 3, binding: 0 },
        ]
    );
}

#[test]
fn program_with_geometry_stage_deletes_all_three_stages() {
    let (result, books) = run(Shader::new_with_geometry("vs", "fs", "gs"), all_is_well);
    assert_eq!(result.unwrap().program, 4);
    assert_eq!(books.live, vec![4]);
    assert_eq!(
        books.requests[4..8],
        [
            Request::CreateShader { stage: StageKind::Geometry },
            Request::CompileShader { shader: 3, source: "gs".to_string() },
            Request::CreateProgram,
            Request::LinkProgram { program: 4, vertex: 1, fragment: 2, geometry: Some(3) },
        ]
    );
    assert_eq!(
        books.calls[..3],
        [
            GlCall::DeleteShader { shader: 1 },
            GlCall::DeleteShader { shader: 2 },
            GlCall::DeleteShader { shader: 3 },
        ]
    );
}

#[test]
fn plain_program_construction_binds_no_block() {
    let (result, books) = run(new_shader_program("vs", "fs", None), all_is_well);
    assert_eq!(result.unwrap().program, 3);
    assert_eq!(books.requests.len(), 6);
    assert_eq!(
        books.calls,
        vec![GlCall::DeleteShader { shader: 1 }, GlCall::DeleteShader { shader: 2 }]
    );
    let (result, books) = run(new_shader_program("vs", "fs", Some("gs")), all_is_well);
    assert_eq!(result.unwrap().program, 4);
    assert_eq!(books.live, vec![4]);
}

#[test]
fn vertex_stage_that_does_not_compile_ends_the_construction() {
    let (result, books) = run(Shader::new("bad", "fs"), |request, books| match request {
        Request::CompileShader { .. } => Reply::Status(false),
        Request::ShaderInfoLog { shader } => Reply::Log(format!("log of {}", shader)),
        other => all_is_well(other, books),
    });
    assert_eq!(
        result,
        Err(ShaderError::Compile { stage: StageKind::Vertex, log: "log of 1".to_string() })
    );
    assert!(books.live.is_empty());
    assert_eq!(books.requests.len(), 3);
}

#[test]
fn compile_failure_with_an_empty_log_is_still_a_failure() {
    let (result, books) = run(Shader::new("bad", "fs"), |request, books| match request {
        Request::CompileShader { .. } => Reply::Status(false),
        other => all_is_well(other, books),
    });
    let error = result.unwrap_err();
    assert_eq!(error, ShaderError::Compile { stage: StageKind::Vertex, log: String::new() });
    assert_eq!(error.message(), "Shader compilation failed: ");
    assert!(books.live.is_empty());
}

#[test]
fn geometry_stage_that_does_not_compile_releases_three_stages() {
    let build = Shader::new_with_geometry("vs", "fs", "bad");
    let (result, books) = run(build, |request, books| match request {
        Request::CompileShader { source, .. } => Reply::Status(source != "bad"),
        Request::ShaderInfoLog { .. } => Reply::Log("geometry went wrong".to_string()),
        other => all_is_well(other, books),
    });
    assert_eq!(
        result,
        Err(ShaderError::Compile {
            stage: StageKind::Geometry,
            log: "geometry went wrong".to_string()
        })
    );
    assert!(books.live.is_empty());
    assert_eq!(books.calls.len(), 3);
}

#[test]
fn missing_stage_object_ends_the_construction() {
    let (result, books) = run(Shader::new("vs", "fs"), |request, _| match request {
        Request::CreateShader { .. } => Reply::Handle(0),
        _ => unreachable!(),
    });
    assert_eq!(result, Err(ShaderError::CreateShader(StageKind::Vertex)));
    assert!(books.calls.is_empty());
    let (result, books) = run(Shader::new("vs", "fs"), |request, books| match request {
        Request::CreateShader { stage: StageKind::Fragment } => Reply::Handle(0),
        other => all_is_well(other, books),
    });
    assert_eq!(result, Err(ShaderError::CreateShader(StageKind::Fragment)));
    assert_eq!(books.calls, vec![GlCall::DeleteShader { shader: 1 }]);
    assert!(books.live.is_empty());
    let build = Shader::new_with_geometry("vs", "fs", "gs");
    let (result, books) = run(build, |request, books| match request {
        Request::CreateShader { stage: StageKind::Geometry } => Reply::Handle(0),
        other => all_is_well(other, books),
    });
    assert_eq!(result, Err(ShaderError::CreateShader(StageKind::Geometry)));
    assert!(books.live.is_empty());
}

#[test]
fn missing_program_object_releases_the_stages() {
    let (result, books) = run(Shader::new("vs", "fs"), |request, books| match request {
        Request::CreateProgram => Reply::Handle(0),
        other => all_is_well(other, books),
    });
    assert_eq!(result, Err(ShaderError::CreateProgram));
    assert!(books.live.is_empty());
    assert_eq!(
        books.calls,
        vec![GlCall::DeleteShader { shader: 1 }, GlCall::DeleteShader { shader: 2 }]
    );
}

#[test]
fn program_that_does_not_link_is_deleted_with_its_stages() {
    let (result, books) = run(Shader::new("vs", "fs"), |request, books| match request {
        Request::LinkProgram { .. } => Reply::Status(false),
        Request::ProgramInfoLog { program } => Reply::Log(format!("program {} has no main", program)),
        other => all_is_well(other, books),
    });
    let error = result.unwrap_err();
    assert_eq!(error, ShaderError::Link { log: "program 3 has no main".to_string() });
    assert_eq!(error.message(), "Shader program linking failed: program 3 has no main");
    assert!(books.live.is_empty());
    assert_eq!(
        books.calls,
        vec![
            GlCall::DeleteShader { shader: 1 },
            GlCall::DeleteShader { shader: 2 },
            GlCall::DeleteProgram { program: 3 },
        ]
    );
}

#[test]
fn an_answer_of_the_wrong_kind_counts_as_failure() {
    let (result, _) = run(Shader::new("vs", "fs"), |_, _| Reply::Status(true));
    assert_eq!(result, Err(ShaderError::CreateShader(StageKind::Vertex)));
    let (result, books) = run(Shader::new("vs", "fs"), |request, books| match request {
        Request::CompileShader { .. } => Reply::Handle(1),
        Request::ShaderInfoLog { .. } => Reply::Status(true),
        other => all_is_well(other, books),
    });
    assert_eq!(
        result,
        Err(ShaderError::Compile { stage: StageKind::Vertex, log: String::new() })
    );
    assert!(books.live.is_empty());
}

#[test]
fn construction_starts_by_asking_for_a_vertex_stage() {
    let build = Shader::new_with_geometry("a", "b", "c");
    assert_eq!(build.phase, Phase::CreateStage(StageKind::Vertex));
    assert_eq!(build.vertex_source, "a");
    assert_eq!(build.fragment_source, "b");
    assert_eq!(build.geometry_source, Some("c".to_string()));
    assert_eq!((build.vertex, build.fragment, build.geometry, build.program), (0, 0, 0, 0));
    assert!(build.bind_blocks);
    assert_eq!(build.request(), Request::CreateShader { stage: StageKind::Vertex });
    assert!(!new_shader_program("a", "b", None).bind_blocks);
    assert_eq!(Shader::new("a", "b").geometry_source, None);
}

#[test]
fn handles_are_accepted_unless_null() {
    assert_eq!(create_vertex_shader(4), Ok(4));
    assert_eq!(create_vertex_shader(0), Err(ShaderError::CreateShader(StageKind::Vertex)));
    assert_eq!(create_fragment_shader(5), Ok(5));
    assert_eq!(create_fragment_shader(0), Err(ShaderError::CreateShader(StageKind::Fragment)));
    assert_eq!(create_geometry_shader(6), Ok(6));
    assert_eq!(create_geometry_shader(0), Err(ShaderError::CreateShader(StageKind::Geometry)));
    assert_eq!(create_program(7), Ok(7));
    assert_eq!(create_program(0), Err(ShaderError::CreateProgram));
}

#[test]
fn creation_errors_in_words() {
    assert_eq!(
        ShaderError::CreateShader(StageKind::Vertex).message(),
        "Could not create vertex shader."
    );
    assert_eq!(
        ShaderError::CreateShader(StageKind::Fragment).message(),
        "Could not create fragment shader."
    );
    assert_eq!(
        ShaderError::CreateShader(StageKind::Geometry).message(),
        "Could not create geometry shader."
    );
    assert_eq!(ShaderError::CreateProgram.message(), "Could not create shader program.");
}

#[test]
fn stage_kinds_are_the_enumerants() {
    assert_eq!(StageKind::Vertex.kind(), VERTEX_SHADER);
    assert_eq!(StageKind::Fragment.kind(), FRAGMENT_SHADER);
    assert_eq!(StageKind::Geometry.kind(), GEOMETRY_SHADER);
    assert_eq!(MATRICES_BLOCK, "matrices");
    assert_eq!(MATRICES_BINDING, 0);
    assert_eq!(MISSING_UNIFORM, -1);
}

#[test]
fn replies_read_as_failure_when_they_hold_something_else() {
    assert_eq!(Reply::Handle(4).handle(), 4);
    assert_eq!(Reply::Status(true).handle(), 0);
    assert!(Reply::Status(true).succeeded());
    assert!(!Reply::Status(false).succeeded());
    assert!(!Reply::Handle(1).succeeded());
    assert_eq!(Reply::Log("x".to_string()).text(), "x");
    assert_eq!(Reply::Handle(1).text(), "");
}

#[test]
fn uniform_locations_are_asked_for_once() {
    let mut shader = Shader::from_program(5);
    assert_eq!(shader.get_uniform_location("model"), None);
    assert_eq!(shader.set_i32("model", 1), UniformWrite::Unresolved);
    assert!(!shader.record_uniform_location("model", 7));
    assert_eq!(shader.get_uniform_location("model"), Some(7));
    assert!(!shader.record_uniform_location("model", 9));
    assert_eq!(shader.get_uniform_location("model"), Some(7));
    assert_eq!(shader.uniforms.len(), 1);
    assert_eq!(shader.get_uniform_location("mode"), None);
    assert_eq!(shader.program, 5);
}

#[test]
fn missing_uniform_is_warned_of_once_and_skipped() {
    let mut shader = Shader::from_program(5);
    assert!(shader.record_uniform_location("ghost", -1));
    assert!(!shader.record_uniform_location("ghost", -1));
    assert!(!shader.record_uniform_location("ghost", 4));
    assert_eq!(shader.get_uniform_location("ghost"), Some(-1));
    assert_eq!(shader.set_i32("ghost", 3), UniformWrite::Skipped);
    assert_eq!(shader.set_float("ghost", 3), UniformWrite::Skipped);
    assert_eq!(shader.set_mat4f("ghost", &[0; 16]), UniformWrite::Skipped);
}

#[test]
fn typed_uniform_writes() {
    let mut shader = Shader::from_program(5);
    shader.record_uniform_location("u", 2);
    let write = |call: GlCall| UniformWrite::Write(call);
    assert_eq!(shader.set_bool("u", true), write(GlCall::Uniform1i { location: 2, value: 1 }));
    assert_eq!(shader.set_bool("u", false), write(GlCall::Uniform1i { location: 2, value: 0 }));
    assert_eq!(shader.set_i32("u", -8), write(GlCall::Uniform1i { location: 2, value: -8 }));
    let half = 0.5f32.to_bits();
    assert_eq!(shader.set_float("u", half), write(GlCall::Uniform1f { location: 2, value: half }));
    assert_eq!(
        shader.set_vec2f("u", &[1, 2]),
        write(GlCall::Uniform2f { location: 2, value: [1, 2] })
    );
    assert_eq!(
        shader.set_vec3f("u", &[1, 2, 3]),
        write(GlCall::Uniform3f { location: 2, value: [1, 2, 3] })
    );
    assert_eq!(
        shader.set_vec4f("u", &[1, 2, 3, 4]),
        write(GlCall::Uniform4f { location: 2, value: [1, 2, 3, 4] })
    );
    let mut matrix = [0u32; 16];
    matrix[5] = half;
    assert_eq!(
        shader.set_mat4f("u", &matrix),
        write(GlCall::UniformMatrix4fv { location: 2, value: matrix })
    );
    let mut double = [0u64; 16];
    double[15] = 0.25f64.to_bits();
    assert_eq!(
        shader.set_mat4d("u", &double),
        write(GlCall::UniformMatrix4dv { location: 2, value: double })
    );
    assert_eq!(
        shader.uniform("u", UniformValue::Int(6)),
        write(GlCall::Uniform1i { location: 2, value: 6 })
    );
    assert_eq!(shader.uniform("v", UniformValue::Int(6)), UniformWrite::Unresolved);
}

#[test]
fn location_zero_is_a_location() {
    let mut shader = Shader::from_program(1);
    shader.record_uniform_location("first", 0);
    assert_eq!(
        shader.set_i32("first", 1),
        UniformWrite::Write(GlCall::Uniform1i { location: 0, value: 1 })
    );
}

#[test]
fn program_calls() {
    let mut shader = Shader::from_program(31);
    assert_eq!(shader.use_program(), GlCall::UseProgram { program: 31 });
    assert_eq!(
        shader.apply_block_indexes(2),
        GlCall::UniformBlockBinding { program: 31, block: 2, binding: 0 }
    );
    assert_eq!(shader.delete(), GlCall::DeleteProgram { program: 31 });
    assert_eq!(shader.program, 31);
}

#[test]
fn construction_stays_well_formed_from_step_to_step() {
    let mut build = Shader::new_with_geometry("vs", "fs", "gs");
    let mut books = Books { next_handle: 1, live: vec![], requests: vec![], calls: vec![] };
    loop {
        assert!(build.is_well_formed());
        let reply = all_is_well(&build.request(), &mut books);
        match build.advance(reply).next {
            Next::Ask(next) => build = next,
            Next::Done(result) => {
                assert!(result.is_ok());
                break;
            },
        }
    }
    let mut odd = Shader::new("vs", "fs");
    odd.fragment = 4;
    assert!(!odd.is_well_formed());
    let mut odd = Shader::new("vs", "fs");
    odd.phase = Phase::CreateStage(StageKind::Geometry);
    assert!(!odd.is_well_formed());
    let mut odd = Shader::new("vs", "fs");
    odd.phase = Phase::Link;
    assert!(!odd.is_well_formed());
}
