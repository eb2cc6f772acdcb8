use particle_scene::error::{DrawError, Stage};
use particle_scene::webgl::{
    compile_shader, link_program, BuildAction, LinkReport, ShaderProgramBuilder, StageReport,
};

fn ok_stage(handle: u32) -> StageReport {
    StageReport { created: true, handle, compiled: true, log: None }
}

fn ok_link(handle: u32) -> LinkReport {
    LinkReport { created: true, handle, linked: true, log: None }
}

fn run_build(vertex_src: &str, fragment_src: &str, vs: u32, fs: u32, prog: u32) -> u32 {
    let (builder, action) =
        ShaderProgramBuilder::new(vertex_src.to_string(), fragment_src.to_string());
    match action {
        BuildAction::CompileStage { stage, source } => {
            assert_eq!(stage, Stage::Vertex);
            assert_eq!(source, vertex_src);
        }
        _ => panic!("expected a vertex compile command"),
    }
    let (builder, action) = builder.shader_compiled(ok_stage(vs)).unwrap();
    match action {
        BuildAction::CompileStage { stage, source } => {
            assert_eq!(stage, Stage::Fragment);
            assert_eq!(source, fragment_src);
        }
        _ => panic!("expected a fragment compile command"),
    }
    let (builder, action) = builder.shader_compiled(ok_stage(fs)).unwrap();
    match action {
        BuildAction::LinkStages { vertex_shader, fragment_shader } => {
            assert_eq!(vertex_shader, vs);
            assert_eq!(fragment_shader, fs);
        }
        _ => panic!("expected a link command"),
    }
    let (program, action) = builder.linked(ok_link(prog)).unwrap();
    match action {
        BuildAction::UseProgram { program: used } => assert_eq!(used, program),
        _ => panic!("expected an activation command"),
    }
    program
}

#[test]
fn build_valid_sources_reaches_program() {
    let program = run_build("void main() {}", "void main() {}", 7, 8, 42);
    assert_eq!(program, 42);
}

#[test]
fn build_twice_yields_independent_programs() {
    let first = run_build("void main() {}", "void main() {}", 1, 2, 10);
    let second = run_build("void main() {}", "void main() {}", 3, 4, 11);
    assert_eq!(first, 10);
    assert_eq!(second, 11);
}

#[test]
fn vertex_syntax_error_reports_vertex_stage() {
    let (builder, _) = ShaderProgramBuilder::new("void main(".to_string(), "ok".to_string());
    let report = StageReport {
        created: true,
        handle: 7,
        compiled: false,
        log: Some("ERROR: 0:1: syntax error".to_string()),
    };
    match builder.shader_compiled(report) {
        Err(DrawError::CompileFailed { stage, log }) => {
            assert_eq!(stage, Stage::Vertex);
            assert_eq!(log, "ERROR: 0:1: syntax error");
            assert!(!log.is_empty());
        }
        _ => panic!("expected a vertex compile failure"),
    }
}

#[test]
fn fragment_syntax_error_reports_fragment_stage() {
    let (builder, _) = ShaderProgramBuilder::new("ok".to_string(), "bad".to_string());
    let (builder, _) = builder.shader_compiled(ok_stage(7)).unwrap();
    let report = StageReport {
        created: true,
        handle: 8,
        compiled: false,
        log: Some("ERROR: undeclared identifier".to_string()),
    };
    match builder.shader_compiled(report) {
        Err(DrawError::CompileFailed { stage, log }) => {
            assert_eq!(stage, Stage::Fragment);
            assert_eq!(log, "ERROR: undeclared identifier");
        }
        _ => panic!("expected a fragment compile failure"),
    }
}

#[test]
fn compile_failure_without_driver_log_uses_fallback() {
    let report = StageReport { created: true, handle: 7, compiled: false, log: None };
    match compile_shader(Stage::Vertex, report) {
        Err(DrawError::CompileFailed { stage, log }) => {
            assert_eq!(stage, Stage::Vertex);
            assert_eq!(log, "Unknown error creating shader");
        }
        _ => panic!("expected a compile failure"),
    }
}

#[test]
fn shader_object_creation_failure_has_fixed_log() {
    let report = StageReport { created: false, handle: 0, compiled: false, log: None };
    match compile_shader(Stage::Fragment, report) {
        Err(DrawError::CompileFailed { stage, log }) => {
            assert_eq!(stage, Stage::Fragment);
            assert_eq!(log, "Unable to create shader object");
        }
        _ => panic!("expected a compile failure"),
    }
}

#[test]
fn compile_success_returns_driver_handle() {
    let report = ok_stage(31);
    assert_eq!(compile_shader(Stage::Vertex, report).unwrap(), 31);
}

#[test]
fn mismatched_interface_link_failure_has_log() {
    let (builder, _) = ShaderProgramBuilder::new("ok".to_string(), "ok".to_string());
    let (builder, _) = builder.shader_compiled(ok_stage(7)).unwrap();
    let (builder, _) = builder.shader_compiled(ok_stage(8)).unwrap();
    let report = LinkReport {
        created: true,
        handle: 9,
        linked: false,
        log: Some("varying vTint not written by vertex shader".to_string()),
    };
    match builder.linked(report) {
        Err(DrawError::LinkFailed { log }) => {
            assert_eq!(log, "varying vTint not written by vertex shader");
            assert!(!log.is_empty());
        }
        _ => panic!("expected a link failure"),
    }
}

#[test]
fn link_failure_without_driver_log_uses_fallback() {
    let report = LinkReport { created: true, handle: 9, linked: false, log: None };
    match link_program(report) {
        Err(DrawError::LinkFailed { log }) => {
            assert_eq!(log, "Unknown error creating program object");
        }
        _ => panic!("expected a link failure"),
    }
}

#[test]
fn program_object_creation_failure_is_link_failure() {
    let report = LinkReport { created: false, handle: 0, linked: false, log: None };
    match link_program(report) {
        Err(DrawError::LinkFailed { log }) => {
            assert_eq!(log, "Unable to create shader object");
        }
        _ => panic!("expected a link failure"),
    }
}

#[test]
fn link_success_returns_driver_handle() {
    assert_eq!(link_program(ok_link(55)).unwrap(), 55);
}
