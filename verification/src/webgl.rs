use vstd::prelude::*;
use vstd::string::StringExecFns;
use crate::error::{DrawError, Stage};

verus! {

// The graphics driver is an outside service.  The build protocol therefore
// runs as a state machine: the core hands the glue a `BuildAction` (a plain
// command value), the glue performs it against the rendering context and
// hands back a report of what the driver said, and the core decides the
// next step.  Every decision is verified against the spec-level transition
// functions below.

/// What the driver reported after the glue created, sourced and compiled
/// one shader stage.
///
/// `created` is whether the driver handed out a shader object at all;
/// `handle` identifies that object (meaningful only when `created`);
/// `compiled` is the compile-status query, read as `false` when the driver
/// answered with anything but a boolean; `log` is the driver's diagnostic
/// text, `None` when it reported none.
#[derive(Debug)]
pub struct StageReport {
    pub created: bool,
    pub handle: u32,
    pub compiled: bool,
    pub log: Option<String>,
}

/// What the driver reported after the glue created a program object,
/// attached both shaders and linked.
#[derive(Debug)]
pub struct LinkReport {
    pub created: bool,
    pub handle: u32,
    pub linked: bool,
    pub log: Option<String>,
}

/// The next command the glue must perform against the rendering context.
#[derive(Debug)]
pub enum BuildAction {
    /// Create a shader object of the given stage, attach the source text,
    /// compile, and report status and log.
    CompileStage { stage: Stage, source: String },
    /// Create a program object, attach the two shader objects, link, and
    /// report status and log.
    LinkStages { vertex_shader: u32, fragment_shader: u32 },
    /// Activate the program as current for the context.
    UseProgram { program: u32 },
}

/// Ghost image of the builder's progress.
pub enum BuildStateView {
    VertexPending { fragment_source: Seq<char> },
    FragmentPending { vertex_shader: u32 },
    LinkPending { vertex_shader: u32, fragment_shader: u32 },
}

/// Ghost image of a `BuildAction`.
pub enum BuildActionView {
    CompileStage { stage: Stage, source: Seq<char> },
    LinkStages { vertex_shader: u32, fragment_shader: u32 },
    UseProgram { program: u32 },
}

/// Ghost image of a build failure.
pub enum BuildErrorView {
    CompileFailed { stage: Stage, log: Seq<char> },
    LinkFailed { log: Seq<char> },
}

/// Ghost outcome of one compile step: either the build fails, or it moves
/// to a next state and emits a next action.
pub enum StageStepView {
    Fail { error: BuildErrorView },
    Next { state: BuildStateView, action: BuildActionView },
}

/// Ghost outcome of the link step: either the build fails, or it is done
/// and the linked program is to be activated.
pub enum LinkStepView {
    Fail { error: BuildErrorView },
    Done { program: u32 },
}

pub open spec fn action_view(a: BuildAction) -> BuildActionView {
    match a {
        BuildAction::CompileStage { stage, source } => (BuildActionView::CompileStage {
            stage,
            source: source@,
        }),
        BuildAction::LinkStages { vertex_shader, fragment_shader } => (BuildActionView::LinkStages {
            vertex_shader,
            fragment_shader,
        }),
        BuildAction::UseProgram { program } => (BuildActionView::UseProgram { program }),
    }
}

/// The error an exec step returned agrees with the ghost failure.
pub open spec fn error_matches(e: DrawError, v: BuildErrorView) -> bool {
    match v {
        BuildErrorView::CompileFailed { stage, log } => (e matches DrawError::CompileFailed {
            stage: s,
            log: l,
        } && s == stage && l@ == log),
        BuildErrorView::LinkFailed { log } => (e matches DrawError::LinkFailed { log: l } && l@
            == log),
    }
}

/// Fixed fallback text when the driver hands out no shader object.
pub open spec fn create_failure_log() -> Seq<char> {
    "Unable to create shader object"@
}

/// Fixed fallback text when a compile fails and the driver reports no log.
pub open spec fn compile_failure_log() -> Seq<char> {
    "Unknown error creating shader"@
}

/// Fixed fallback text when a link fails and the driver reports no log.
pub open spec fn link_failure_log() -> Seq<char> {
    "Unknown error creating program object"@
}

/// A stage compile succeeded: the driver created the object and the
/// compile-status query came back true.
pub open spec fn stage_ok(report: StageReport) -> bool {
    report.created && report.compiled
}

/// A link succeeded: the driver created the program object and the
/// link-status query came back true.
pub open spec fn link_ok(report: LinkReport) -> bool {
    report.created && report.linked
}

/// The diagnostic text a failed compile carries: the driver's own log when
/// it gave one, else the fixed fallback for the failure kind.
pub open spec fn stage_failure_log(report: StageReport) -> Seq<char> {
    if !report.created {
        create_failure_log()
    } else {
        match report.log {
            Some(l) => l@,
            None => compile_failure_log(),
        }
    }
}

/// The diagnostic text a failed link carries.
pub open spec fn link_failure_text(report: LinkReport) -> Seq<char> {
    if !report.created {
        create_failure_log()
    } else {
        match report.log {
            Some(l) => l@,
            None => link_failure_log(),
        }
    }
}

/// Transition taken when the vertex-stage report arrives.
pub open spec fn vertex_step(fragment_source: Seq<char>, report: StageReport) -> StageStepView {
    if stage_ok(report) {
        StageStepView::Next {
            state: (BuildStateView::FragmentPending { vertex_shader: report.handle }),
            action: (BuildActionView::CompileStage {
                stage: Stage::Fragment,
                source: fragment_source,
            }),
        }
    } else {
        StageStepView::Fail {
            error: (BuildErrorView::CompileFailed {
                stage: Stage::Vertex,
                log: stage_failure_log(report),
            }),
        }
    }
}

/// Transition taken when the fragment-stage report arrives.
pub open spec fn fragment_step(vertex_shader: u32, report: StageReport) -> StageStepView {
    if stage_ok(report) {
        StageStepView::Next {
            state: (BuildStateView::LinkPending {
                vertex_shader,
                fragment_shader: report.handle,
            }),
            action: (BuildActionView::LinkStages {
                vertex_shader,
                fragment_shader: report.handle,
            }),
        }
    } else {
        StageStepView::Fail {
            error: (BuildErrorView::CompileFailed {
                stage: Stage::Fragment,
                log: stage_failure_log(report),
            }),
        }
    }
}

/// Transition taken when a stage report arrives in any compiling state.
/// A linking state consumes no stage report — `shader_compiled` excludes
/// it — so its arm only keeps the function total.
pub open spec fn build_step(state: BuildStateView, report: StageReport) -> StageStepView {
    match state {
        BuildStateView::VertexPending { fragment_source } => vertex_step(fragment_source, report),
        BuildStateView::FragmentPending { vertex_shader } => fragment_step(vertex_shader, report),
        BuildStateView::LinkPending { .. } => (StageStepView::Fail {
            error: (BuildErrorView::CompileFailed {
                stage: Stage::Vertex,
                log: create_failure_log(),
            }),
        }),
    }
}

/// Transition taken when the link report arrives.
pub open spec fn link_step(report: LinkReport) -> LinkStepView {
    if link_ok(report) {
        LinkStepView::Done { program: report.handle }
    } else {
        LinkStepView::Fail {
            error: (BuildErrorView::LinkFailed { log: link_failure_text(report) }),
        }
    }
}

/// LAW: for any source pair whose two stages compile and link — the
/// driver's reports all succeed — the build protocol runs to completion:
/// it compiles the vertex stage, then the fragment stage, links the two,
/// returns the linked program, and ends by activating it.  The transition
/// functions are deterministic and each builder value carries its own
/// state, so building twice from the same sources runs the same protocol
/// twice and yields two independently usable programs.
pub proof fn lemma_build_succeeds(
    fragment_source: Seq<char>,
    vertex_report: StageReport,
    fragment_report: StageReport,
    link_report: LinkReport,
)
    requires
        stage_ok(vertex_report),
        stage_ok(fragment_report),
        link_ok(link_report),
    ensures
        build_step((BuildStateView::VertexPending { fragment_source }), vertex_report)
            == (StageStepView::Next {
            state: (BuildStateView::FragmentPending { vertex_shader: vertex_report.handle }),
            action: (BuildActionView::CompileStage {
                stage: Stage::Fragment,
                source: fragment_source,
            }),
        }),
        build_step(
            (BuildStateView::FragmentPending { vertex_shader: vertex_report.handle }),
            fragment_report,
        ) == (StageStepView::Next {
            state: (BuildStateView::LinkPending {
                vertex_shader: vertex_report.handle,
                fragment_shader: fragment_report.handle,
            }),
            action: (BuildActionView::LinkStages {
                vertex_shader: vertex_report.handle,
                fragment_shader: fragment_report.handle,
            }),
        }),
        link_step(link_report) == (LinkStepView::Done { program: link_report.handle }),
{
}

/// LAW: a stage whose compile fails is reported as `CompileFailed` for
/// that very stage, and its log is never silent — it is the driver's own
/// diagnostic text whenever the driver gave one (assumed non-empty here;
/// an empty driver log would be passed through as-is), and a fixed
/// non-empty fallback otherwise.
pub proof fn lemma_compile_failure_diagnosed(state: BuildStateView, report: StageReport)
    requires
        !(state is LinkPending),
        !stage_ok(report),
        report.log matches Some(l) ==> l@.len() > 0,
    ensures
        build_step(state, report) matches StageStepView::Fail { error } && error
            matches BuildErrorView::CompileFailed { stage, log } && log.len() > 0 && (
        state is VertexPending ==> stage == Stage::Vertex) && (state is FragmentPending ==> stage
            == Stage::Fragment),
{
    reveal_strlit("Unable to create shader object");
    reveal_strlit("Unknown error creating shader");
}

/// LAW: a link that fails — as with two stages of mismatched interface —
/// is reported as `LinkFailed`, and its log is never silent, on the same
/// terms as a compile failure's log.
pub proof fn lemma_link_failure_diagnosed(report: LinkReport)
    requires
        !link_ok(report),
        report.log matches Some(l) ==> l@.len() > 0,
    ensures
        link_step(report) matches LinkStepView::Fail { error } && error
            matches BuildErrorView::LinkFailed { log } && log.len() > 0,
{
    reveal_strlit("Unable to create shader object");
    reveal_strlit("Unknown error creating program object");
}

enum BuildState {
    VertexPending { fragment_source: String },
    FragmentPending { vertex_shader: u32 },
    LinkPending { vertex_shader: u32, fragment_shader: u32 },
}

/// Compiles vertex and fragment source into a linked program, surfacing
/// compiler and linker diagnostics.
///
/// The builder is driven by the glue: `new` hands out the first command,
/// each report handed back yields either the next command or a terminal
/// `DrawError`, and a successful link ends with a `UseProgram` command, so
/// that success activates the program as a side effect.  Compilation and
/// linking are never retried: an error is terminal for the attempt.
pub struct ShaderProgramBuilder {
    state: BuildState,
}

impl ShaderProgramBuilder {
    /// Ghost image of the builder's progress.
    pub closed spec fn state_view(self) -> BuildStateView {
        match self.state {
            BuildState::VertexPending { fragment_source } => (BuildStateView::VertexPending {
                fragment_source: fragment_source@,
            }),
            BuildState::FragmentPending { vertex_shader } => (BuildStateView::FragmentPending {
                vertex_shader,
            }),
            BuildState::LinkPending { vertex_shader, fragment_shader } => (
            BuildStateView::LinkPending { vertex_shader, fragment_shader }),
        }
    }

    /// Start a build of the two sources.  The first command compiles the
    /// vertex stage: the vertex source is always judged first, so a build
    /// whose two stages are both bad reports the vertex failure.
    pub fn new(vertex_source: String, fragment_source: String) -> (r: (
        ShaderProgramBuilder,
        BuildAction,
    ))
        ensures
            r.0.state_view() == (BuildStateView::VertexPending {
                fragment_source: fragment_source@,
            }),
            action_view(r.1) == (BuildActionView::CompileStage {
                stage: Stage::Vertex,
                source: vertex_source@,
            }),
    {
        (
            ShaderProgramBuilder { state: BuildState::VertexPending { fragment_source } },
            BuildAction::CompileStage { stage: Stage::Vertex, source: vertex_source },
        )
    }

    /// Consume the report of the compile command the builder last handed
    /// out, and decide the next step, as `build_step` states it.
    pub fn shader_compiled(self, report: StageReport) -> (r: Result<
        (ShaderProgramBuilder, BuildAction),
        DrawError,
    >)
        requires
            !(self.state_view() is LinkPending),
        ensures
            match build_step(self.state_view(), report) {
                StageStepView::Next { state, action } => r matches Ok((b, a)) && b.state_view()
                    == state && action_view(a) == action,
                StageStepView::Fail { error } => r matches Err(e) && error_matches(e, error),
            },
    {
        match self.state {
            BuildState::VertexPending { fragment_source } => {
                match compile_shader(Stage::Vertex, report) {
                    Ok(vertex_shader) => Ok(
                        (
                            ShaderProgramBuilder {
                                state: BuildState::FragmentPending { vertex_shader },
                            },
                            BuildAction::CompileStage {
                                stage: Stage::Fragment,
                                source: fragment_source,
                            },
                        ),
                    ),
                    Err(e) => Err(e),
                }
            },
            BuildState::FragmentPending { vertex_shader } => {
                match compile_shader(Stage::Fragment, report) {
                    Ok(fragment_shader) => Ok(
                        (
                            ShaderProgramBuilder {
                                state: BuildState::LinkPending { vertex_shader, fragment_shader },
                            },
                            BuildAction::LinkStages { vertex_shader, fragment_shader },
                        ),
                    ),
                    Err(e) => Err(e),
                }
            },
            BuildState::LinkPending { .. } => Err(
                DrawError::CompileFailed {
                    stage: Stage::Vertex,
                    log: String::from_str("Unable to create shader object"),
                },
            ),
        }
    }

    /// Consume the link report and finish the build: on success the linked
    /// program handle is returned together with the command that activates
    /// it, as `link_step` states it.
    pub fn linked(self, report: LinkReport) -> (r: Result<(u32, BuildAction), DrawError>)
        requires
            self.state_view() is LinkPending,
        ensures
            match link_step(report) {
                LinkStepView::Done { program } => r matches Ok((p, a)) && p == program
                    && action_view(a) == (BuildActionView::UseProgram { program }),
                LinkStepView::Fail { error } => r matches Err(e) && error_matches(e, error),
            },
    {
        match link_program(report) {
            Ok(program) => Ok((program, BuildAction::UseProgram { program })),
            Err(e) => Err(e),
        }
    }
}

/// Judge one stage's compile report: the shader object's handle on
/// success, `CompileFailed` for this stage, carrying the driver's log or
/// the fixed fallback, on failure.
pub fn compile_shader(stage: Stage, report: StageReport) -> (r: Result<u32, DrawError>)
    ensures
        stage_ok(report) ==> (r matches Ok(h) && h == report.handle),
        !stage_ok(report) ==> (r matches Err(e) && e matches DrawError::CompileFailed {
            stage: s,
            log,
        } && s == stage && log@ == stage_failure_log(report)),
{
    if !report.created {
        Err(
            DrawError::CompileFailed {
                stage,
                log: String::from_str("Unable to create shader object"),
            },
        )
    } else if !report.compiled {
        let log = match report.log {
            Some(l) => l,
            None => String::from_str("Unknown error creating shader"),
        };
        Err(DrawError::CompileFailed { stage, log })
    } else {
        Ok(report.handle)
    }
}

/// Judge the link report: the program handle on success, `LinkFailed`,
/// carrying the driver's log or the fixed fallback, on failure.
pub fn link_program(report: LinkReport) -> (r: Result<u32, DrawError>)
    ensures
        link_ok(report) ==> (r matches Ok(h) && h == report.handle),
        !link_ok(report) ==> (r matches Err(e) && e matches DrawError::LinkFailed { log } && log@
            == link_failure_text(report)),
{
    if !report.created {
        Err(DrawError::LinkFailed { log: String::from_str("Unable to create shader object") })
    } else if !report.linked {
        let log = match report.log {
            Some(l) => l,
            None => String::from_str("Unknown error creating program object"),
        };
        Err(DrawError::LinkFailed { log })
    } else {
        Ok(report.handle)
    }
}

} // verus!
