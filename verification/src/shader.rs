//! Shader programs: how one is built from its sources, and how its uniforms
//! are written.

use vstd::prelude::*;
use vstd::multiset::Multiset;
use crate::command::{GlCall, UniformValue};
use crate::constants::{FRAGMENT_SHADER, GEOMETRY_SHADER, VERTEX_SHADER};

verus! {

/// The location that stands for a uniform that the program does not have.
pub const MISSING_UNIFORM: i32 = -1;

/// The uniform block that holds the projection and view matrices.
pub const MATRICES_BLOCK: &'static str = "matrices";

/// The binding point of the block of matrices.
pub const MATRICES_BINDING: u32 = 0;

/// A stage of a shader program.
#[derive(Clone, Copy, PartialEq, Eq, Structural, Debug)]
pub enum StageKind {
    Vertex,
    Fragment,
    Geometry,
}

impl StageKind {
    /// The enumerant of the stage.
    pub open spec fn kind_of(self) -> u32 {
        match self {
            StageKind::Vertex => VERTEX_SHADER,
            StageKind::Fragment => FRAGMENT_SHADER,
            StageKind::Geometry => GEOMETRY_SHADER,
        }
    }

    /// The enumerant of the stage.
    pub fn kind(&self) -> (kind: u32)
        ensures
            kind == self.kind_of(),
    {
        match self {
            StageKind::Vertex => VERTEX_SHADER,
            StageKind::Fragment => FRAGMENT_SHADER,
            StageKind::Geometry => GEOMETRY_SHADER,
        }
    }
}

/// Why a shader program could not be built.
#[derive(Clone, PartialEq, Eq, Debug)]
pub enum ShaderError {
    /// The GPU handed out no object for the stage.
    CreateShader(StageKind),
    /// The GPU handed out no program object.
    CreateProgram,
    /// The stage did not compile; `log` is what the compiler said.
    Compile { stage: StageKind, log: String },
    /// The program did not link; `log` is what the linker said.
    Link { log: String },
}

/// A [`ShaderError`] with its texts as sequences.
pub enum ShaderErrorView {
    CreateShader(StageKind),
    CreateProgram,
    Compile { stage: StageKind, log: Seq<char> },
    Link { log: Seq<char> },
}

impl View for ShaderError {
    type V = ShaderErrorView;

    open spec fn view(&self) -> ShaderErrorView {
        match *self {
            ShaderError::CreateShader(stage) => ShaderErrorView::CreateShader(stage),
            ShaderError::CreateProgram => ShaderErrorView::CreateProgram,
            ShaderError::Compile { stage, log } => ShaderErrorView::Compile { stage, log: log@ },
            ShaderError::Link { log } => ShaderErrorView::Link { log: log@ },
        }
    }
}

impl ShaderError {
    /// The error in words. What the compiler or the linker said is quoted in
    /// full.
    pub open spec fn message_of(error: ShaderErrorView) -> Seq<char> {
        match error {
            ShaderErrorView::CreateShader(StageKind::Vertex) => "Could not create vertex shader."@,
            ShaderErrorView::CreateShader(StageKind::Fragment) => "Could not create fragment shader."@,
            ShaderErrorView::CreateShader(StageKind::Geometry) => "Could not create geometry shader."@,
            ShaderErrorView::CreateProgram => "Could not create shader program."@,
            ShaderErrorView::Compile { stage, log } => "Shader compilation failed: "@ + log,
            ShaderErrorView::Link { log } => "Shader program linking failed: "@ + log,
        }
    }

    /// The error in words.
    pub fn message(&self) -> (text: String)
        ensures
            text@ == ShaderError::message_of(self@),
    {
        match self {
            ShaderError::CreateShader(StageKind::Vertex) => String::from_str(
                "Could not create vertex shader.",
            ),
            ShaderError::CreateShader(StageKind::Fragment) => String::from_str(
                "Could not create fragment shader.",
            ),
            ShaderError::CreateShader(StageKind::Geometry) => String::from_str(
                "Could not create geometry shader.",
            ),
            ShaderError::CreateProgram => String::from_str("Could not create shader program."),
            ShaderError::Compile { stage, log } => {
                let mut text = String::from_str("Shader compilation failed: ");
                text.append(log.as_str());
                text
            },
            ShaderError::Link { log } => {
                let mut text = String::from_str("Shader program linking failed: ");
                text.append(log.as_str());
                text
            },
        }
    }
}

/// Accepts the handle that the GPU gave for a new vertex stage, unless it is 0.
pub fn create_vertex_shader(handle: u32) -> (shader: Result<u32, ShaderError>)
    ensures
        handle != 0 ==> shader == Ok::<u32, ShaderError>(handle),
        handle == 0 ==> shader == Err::<u32, ShaderError>(
            ShaderError::CreateShader(StageKind::Vertex),
        ),
{
    create_shader(StageKind::Vertex, handle)
}

/// Accepts the handle that the GPU gave for a new fragment stage, unless it
/// is 0.
pub fn create_fragment_shader(handle: u32) -> (shader: Result<u32, ShaderError>)
    ensures
        handle != 0 ==> shader == Ok::<u32, ShaderError>(handle),
        handle == 0 ==> shader == Err::<u32, ShaderError>(
            ShaderError::CreateShader(StageKind::Fragment),
        ),
{
    create_shader(StageKind::Fragment, handle)
}

/// Accepts the handle that the GPU gave for a new geometry stage, unless it
/// is 0.
pub fn create_geometry_shader(handle: u32) -> (shader: Result<u32, ShaderError>)
    ensures
        handle != 0 ==> shader == Ok::<u32, ShaderError>(handle),
        handle == 0 ==> shader == Err::<u32, ShaderError>(
            ShaderError::CreateShader(StageKind::Geometry),
        ),
{
    create_shader(StageKind::Geometry, handle)
}

fn create_shader(stage: StageKind, handle: u32) -> (shader: Result<u32, ShaderError>)
    ensures
        handle != 0 ==> shader == Ok::<u32, ShaderError>(handle),
        handle == 0 ==> shader == Err::<u32, ShaderError>(ShaderError::CreateShader(stage)),
{
    if handle == 0 {
        Err(ShaderError::CreateShader(stage))
    } else {
        Ok(handle)
    }
}

/// Accepts the handle that the GPU gave for a new program, unless it is 0.
pub fn create_program(handle: u32) -> (program: Result<u32, ShaderError>)
    ensures
        handle != 0 ==> program == Ok::<u32, ShaderError>(handle),
        handle == 0 ==> program == Err::<u32, ShaderError>(ShaderError::CreateProgram),
{
    if handle == 0 {
        Err(ShaderError::CreateProgram)
    } else {
        Ok(handle)
    }
}

/// A question to the GPU on which the construction of a program waits.
#[derive(Clone, PartialEq, Eq, Debug)]
pub enum Request {
    /// Create a stage object. Answer: its handle, 0 if there is none.
    CreateShader { stage: StageKind },
    /// Give the stage its source and compile it. Answer: whether it compiled.
    CompileShader { shader: u32, source: String },
    /// Answer: the information log of the stage.
    ShaderInfoLog { shader: u32 },
    /// Create a program object. Answer: its handle, 0 if there is none.
    CreateProgram,
    /// Attach the stages to the program and link it. Answer: whether it
    /// linked.
    LinkProgram { program: u32, vertex: u32, fragment: u32, geometry: Option<u32> },
    /// Answer: the information log of the program.
    ProgramInfoLog { program: u32 },
    /// Answer: the index of the uniform block called `name`.
    UniformBlockIndex { program: u32, name: &'static str },
}

/// An answer of the GPU.
#[derive(Clone, PartialEq, Eq, Debug)]
pub enum Reply {
    /// The handle of a new object, or an index.
    Handle(u32),
    /// Whether a compilation or a link succeeded.
    Status(bool),
    /// An information log.
    Log(String),
}

impl Reply {
    /// The handle that the reply holds; 0, the handle that is none, if it
    /// holds something else.
    pub open spec fn handle_of(self) -> u32 {
        match self {
            Reply::Handle(handle) => handle,
            _ => 0,
        }
    }

    /// Whether the reply reports success; a reply that holds something else
    /// does not.
    pub open spec fn succeeded_of(self) -> bool {
        match self {
            Reply::Status(status) => status,
            _ => false,
        }
    }

    /// The log that the reply holds; empty if it holds something else.
    pub open spec fn text_of(self) -> Seq<char> {
        match self {
            Reply::Log(log) => log@,
            _ => Seq::empty(),
        }
    }

    /// The handle that the reply holds, or 0.
    pub fn handle(&self) -> (handle: u32)
        ensures
            handle == self.handle_of(),
    {
        match self {
            Reply::Handle(handle) => *handle,
            _ => 0,
        }
    }

    /// Whether the reply reports success.
    pub fn succeeded(&self) -> (status: bool)
        ensures
            status == self.succeeded_of(),
    {
        match self {
            Reply::Status(status) => *status,
            _ => false,
        }
    }

    /// The log that the reply holds, or an empty one.
    pub fn text(self) -> (log: String)
        ensures
            log@ == self.text_of(),
    {
        match self {
            Reply::Log(log) => log,
            _ => String::new(),
        }
    }
}

/// What the construction of a program waits for.
#[derive(Clone, Copy, PartialEq, Eq, Structural, Debug)]
pub enum Phase {
    CreateStage(StageKind),
    CompileStage(StageKind),
    StageLog(StageKind),
    CreateProgram,
    Link,
    ProgramLog,
    BlockIndex,
}

/// A shader program under construction.
///
/// The construction asks the GPU one question at a time. The backend answers
/// [`ProgramBuild::request`] and hands the answer to
/// [`ProgramBuild::advance`], until that returns [`Next::Done`].
#[derive(Clone, PartialEq, Eq, Debug)]
pub struct ProgramBuild {
    pub phase: Phase,
    pub vertex_source: String,
    pub fragment_source: String,
    pub geometry_source: Option<String>,
    /// The stage objects that exist, 0 for one that does not.
    pub vertex: u32,
    pub fragment: u32,
    pub geometry: u32,
    /// The program object, 0 while there is none.
    pub program: u32,
    /// Whether the block of matrices is bound once the program is linked.
    pub bind_blocks: bool,
}

/// How a construction goes on after an answer.
#[derive(PartialEq, Eq, Debug)]
pub enum Next {
    /// There is another question.
    Ask(ProgramBuild),
    /// The construction is over.
    Done(Result<Shader, ShaderError>),
}

/// What [`ProgramBuild::advance`] returns: calls to make first, then how to
/// go on.
#[derive(PartialEq, Eq, Debug)]
pub struct Step {
    pub run: Vec<GlCall>,
    pub next: Next,
}

/// [`Next`] with the result as the program's handle or the error's view.
pub enum NextView {
    Ask(ProgramBuild),
    Done(Result<u32, ShaderErrorView>),
}

impl View for Next {
    type V = NextView;

    open spec fn view(&self) -> NextView {
        match *self {
            Next::Ask(build) => NextView::Ask(build),
            Next::Done(Ok(shader)) => NextView::Done(Ok(shader.program)),
            Next::Done(Err(error)) => NextView::Done(Err(error@)),
        }
    }
}

/// An object of the GPU that a construction makes.
pub enum GpuObject {
    Stage(u32),
    Program(u32),
}

/// The object that an answer to a request brings into being, if any.
pub open spec fn created(request: Request, reply: Reply) -> Multiset<GpuObject> {
    match request {
        Request::CreateShader { stage } => if reply.handle_of() != 0 {
            Multiset::singleton(GpuObject::Stage(reply.handle_of()))
        } else {
            Multiset::empty()
        },
        Request::CreateProgram => if reply.handle_of() != 0 {
            Multiset::singleton(GpuObject::Program(reply.handle_of()))
        } else {
            Multiset::empty()
        },
        _ => Multiset::empty(),
    }
}

/// The objects that the calls delete.
pub open spec fn released(run: Seq<GlCall>) -> Multiset<GpuObject>
    decreases run.len(),
{
    if run.len() == 0 {
        Multiset::empty()
    } else {
        let rest = released(run.drop_last());
        match run.last() {
            GlCall::DeleteShader { shader } => rest.insert(GpuObject::Stage(shader)),
            GlCall::DeleteProgram { program } => rest.insert(GpuObject::Program(program)),
            _ => rest,
        }
    }
}

/// The objects that a finished construction leaves to its caller: the
/// program, if it succeeded.
pub open spec fn kept(result: Result<u32, ShaderErrorView>) -> Multiset<GpuObject> {
    match result {
        Ok(program) => Multiset::singleton(GpuObject::Program(program)),
        Err(_) => Multiset::empty(),
    }
}

impl ProgramBuild {
    /// The state is one that a construction passes through: the stage and
    /// program objects that exist are those that the phase needs.
    pub open spec fn wf(&self) -> bool {
        match self.phase {
            Phase::CreateStage(StageKind::Vertex) => self.vertex == 0 && self.fragment == 0
                && self.geometry == 0 && self.program == 0,
            Phase::CompileStage(StageKind::Vertex) | Phase::StageLog(StageKind::Vertex) => self.vertex
                != 0 && self.fragment == 0 && self.geometry == 0 && self.program == 0,
            Phase::CreateStage(StageKind::Fragment) => self.vertex != 0 && self.fragment == 0
                && self.geometry == 0 && self.program == 0,
            Phase::CompileStage(StageKind::Fragment) | Phase::StageLog(StageKind::Fragment) => self.vertex
                != 0 && self.fragment != 0 && self.geometry == 0 && self.program == 0,
            Phase::CreateStage(StageKind::Geometry) => self.vertex != 0 && self.fragment != 0
                && self.geometry == 0 && self.program == 0 && self.geometry_source is Some,
            Phase::CompileStage(StageKind::Geometry) | Phase::StageLog(StageKind::Geometry) => self.vertex
                != 0 && self.fragment != 0 && self.geometry != 0 && self.program == 0
                && self.geometry_source is Some,
            Phase::CreateProgram => self.vertex != 0 && self.fragment != 0 && (self.geometry != 0
                <==> self.geometry_source is Some) && self.program == 0,
            Phase::Link => self.vertex != 0 && self.fragment != 0 && (self.geometry != 0
                <==> self.geometry_source is Some) && self.program != 0,
            Phase::ProgramLog | Phase::BlockIndex => self.vertex == 0 && self.fragment == 0
                && self.geometry == 0 && self.program != 0,
        }
    }

    /// The handle of the stage object of kind `stage`.
    pub open spec fn stage_of(&self, stage: StageKind) -> u32 {
        match stage {
            StageKind::Vertex => self.vertex,
            StageKind::Fragment => self.fragment,
            StageKind::Geometry => self.geometry,
        }
    }

    /// The source of the stage of kind `stage`.
    pub open spec fn source_of(&self, stage: StageKind) -> String {
        match stage {
            StageKind::Vertex => self.vertex_source,
            StageKind::Fragment => self.fragment_source,
            StageKind::Geometry => self.geometry_source.unwrap(),
        }
    }

    /// The question that the construction waits on.
    pub open spec fn request_of(&self) -> Request {
        match self.phase {
            Phase::CreateStage(stage) => Request::CreateShader { stage },
            Phase::CompileStage(stage) => Request::CompileShader {
                shader: self.stage_of(stage),
                source: self.source_of(stage),
            },
            Phase::StageLog(stage) => Request::ShaderInfoLog { shader: self.stage_of(stage) },
            Phase::CreateProgram => Request::CreateProgram,
            Phase::Link => Request::LinkProgram {
                program: self.program,
                vertex: self.vertex,
                fragment: self.fragment,
                geometry: if self.geometry != 0 {
                    Some(self.geometry)
                } else {
                    None
                },
            },
            Phase::ProgramLog => Request::ProgramInfoLog { program: self.program },
            Phase::BlockIndex => Request::UniformBlockIndex {
                program: self.program,
                name: MATRICES_BLOCK,
            },
        }
    }

    /// The objects that the construction has made and not yet deleted.
    pub open spec fn owned(&self) -> Multiset<GpuObject> {
        let vertex = if self.vertex != 0 {
            Multiset::singleton(GpuObject::Stage(self.vertex))
        } else {
            Multiset::empty()
        };
        let fragment = if self.fragment != 0 {
            Multiset::singleton(GpuObject::Stage(self.fragment))
        } else {
            Multiset::empty()
        };
        let geometry = if self.geometry != 0 {
            Multiset::singleton(GpuObject::Stage(self.geometry))
        } else {
            Multiset::empty()
        };
        let program = if self.program != 0 {
            Multiset::singleton(GpuObject::Program(self.program))
        } else {
            Multiset::empty()
        };
        vertex.add(fragment).add(geometry).add(program)
    }

    /// The calls that delete the stage objects that exist: vertex, fragment,
    /// geometry.
    pub open spec fn release_stages_of(&self) -> Seq<GlCall> {
        let vertex = if self.vertex != 0 {
            seq![GlCall::DeleteShader { shader: self.vertex }]
        } else {
            seq![]
        };
        let fragment = if self.fragment != 0 {
            seq![GlCall::DeleteShader { shader: self.fragment }]
        } else {
            seq![]
        };
        let geometry = if self.geometry != 0 {
            seq![GlCall::DeleteShader { shader: self.geometry }]
        } else {
            seq![]
        };
        vertex + fragment + geometry
    }

    /// The phase that follows the successful compilation of `stage`.
    pub open spec fn after_stage(&self, stage: StageKind) -> Phase {
        match stage {
            StageKind::Vertex => Phase::CreateStage(StageKind::Fragment),
            StageKind::Fragment => if self.geometry_source is Some {
                Phase::CreateStage(StageKind::Geometry)
            } else {
                Phase::CreateProgram
            },
            StageKind::Geometry => Phase::CreateProgram,
        }
    }

    /// The state with the stage object `handle` for the stage of kind `stage`.
    pub open spec fn with_stage(self, stage: StageKind, handle: u32) -> ProgramBuild {
        match stage {
            StageKind::Vertex => ProgramBuild { vertex: handle, ..self },
            StageKind::Fragment => ProgramBuild { fragment: handle, ..self },
            StageKind::Geometry => ProgramBuild { geometry: handle, ..self },
        }
    }

    /// The state without stage objects.
    pub open spec fn without_stages(self) -> ProgramBuild {
        ProgramBuild { vertex: 0, fragment: 0, geometry: 0, ..self }
    }

    /// What [`ProgramBuild::advance`] does with the answer `reply`: the calls
    /// to make, and how the construction goes on.
    ///
    /// - A stage or program object that the GPU does not hand out ends the
    ///   construction; the stages made so far are deleted.
    /// - A stage that does not compile ends it with the compiler's log; all
    ///   stages are deleted.
    /// - After the link, successful or not, the stages are deleted. A program
    ///   that does not link is deleted too, and the construction ends with the
    ///   linker's log.
    /// - If asked for, the block of matrices of a linked program is bound to
    ///   its binding point.
    pub open spec fn step_of(self, reply: Reply) -> (Seq<GlCall>, NextView) {
        match self.phase {
            Phase::CreateStage(stage) => if reply.handle_of() == 0 {
                (self.release_stages_of(), NextView::Done(Err(ShaderErrorView::CreateShader(stage))))
            } else {
                (
                    seq![],
                    NextView::Ask(
                        ProgramBuild {
                            phase: Phase::CompileStage(stage),
                            ..self.with_stage(stage, reply.handle_of())
                        },
                    ),
                )
            },
            Phase::CompileStage(stage) => if reply.succeeded_of() {
                (seq![], NextView::Ask(ProgramBuild { phase: self.after_stage(stage), ..self }))
            } else {
                (seq![], NextView::Ask(ProgramBuild { phase: Phase::StageLog(stage), ..self }))
            },
            Phase::StageLog(stage) => (
                self.release_stages_of(),
                NextView::Done(Err(ShaderErrorView::Compile { stage, log: reply.text_of() })),
            ),
            Phase::CreateProgram => if reply.handle_of() == 0 {
                (self.release_stages_of(), NextView::Done(Err(ShaderErrorView::CreateProgram)))
            } else {
                (
                    seq![],
                    NextView::Ask(
                        ProgramBuild { phase: Phase::Link, program: reply.handle_of(), ..self },
                    ),
                )
            },
            Phase::Link => if !reply.succeeded_of() {
                (
                    self.release_stages_of(),
                    NextView::Ask(
                        ProgramBuild { phase: Phase::ProgramLog, ..self.without_stages() },
                    ),
                )
            } else if self.bind_blocks {
                (
                    self.release_stages_of(),
                    NextView::Ask(
                        ProgramBuild { phase: Phase::BlockIndex, ..self.without_stages() },
                    ),
                )
            } else {
                (self.release_stages_of(), NextView::Done(Ok(self.program)))
            },
            Phase::ProgramLog => (
                seq![GlCall::DeleteProgram { program: self.program }],
                NextView::Done(Err(ShaderErrorView::Link { log: reply.text_of() })),
            ),
            Phase::BlockIndex => (
                seq![
                    GlCall::UniformBlockBinding {
                        program: self.program,
                        block: reply.handle_of(),
                        binding: MATRICES_BINDING,
                    },
                ],
                NextView::Done(Ok(self.program)),
            ),
        }
    }

    /// The exact test of [`ProgramBuild::wf`].
    pub fn is_well_formed(&self) -> (valid: bool)
        ensures
            valid == self.wf(),
    {
        let geometry = self.geometry_source.is_some();
        match self.phase {
            Phase::CreateStage(StageKind::Vertex) => self.vertex == 0 && self.fragment == 0
                && self.geometry == 0 && self.program == 0,
            Phase::CompileStage(StageKind::Vertex) | Phase::StageLog(StageKind::Vertex) => self.vertex
                != 0 && self.fragment == 0 && self.geometry == 0 && self.program == 0,
            Phase::CreateStage(StageKind::Fragment) => self.vertex != 0 && self.fragment == 0
                && self.geometry == 0 && self.program == 0,
            Phase::CompileStage(StageKind::Fragment) | Phase::StageLog(StageKind::Fragment) => self.vertex
                != 0 && self.fragment != 0 && self.geometry == 0 && self.program == 0,
            Phase::CreateStage(StageKind::Geometry) => self.vertex != 0 && self.fragment != 0
                && self.geometry == 0 && self.program == 0 && geometry,
            Phase::CompileStage(StageKind::Geometry) | Phase::StageLog(StageKind::Geometry) => self.vertex
                != 0 && self.fragment != 0 && self.geometry != 0 && self.program == 0 && geometry,
            Phase::CreateProgram => self.vertex != 0 && self.fragment != 0 && (self.geometry != 0)
                == geometry && self.program == 0,
            Phase::Link => self.vertex != 0 && self.fragment != 0 && (self.geometry != 0)
                == geometry && self.program != 0,
            Phase::ProgramLog | Phase::BlockIndex => self.vertex == 0 && self.fragment == 0
                && self.geometry == 0 && self.program != 0,
        }
    }

    /// The question that the construction waits on.
    pub fn request(&self) -> (request: Request)
        requires
            self.wf(),
        ensures
            request == self.request_of(),
    {
        match self.phase {
            Phase::CreateStage(stage) => Request::CreateShader { stage },
            Phase::CompileStage(stage) => {
                let source = match stage {
                    StageKind::Vertex => self.vertex_source.clone(),
                    StageKind::Fragment => self.fragment_source.clone(),
                    StageKind::Geometry => match &self.geometry_source {
                        Some(source) => source.clone(),
                        None => String::new(),
                    },
                };
                Request::CompileShader { shader: self.stage(stage), source }
            },
            Phase::StageLog(stage) => Request::ShaderInfoLog { shader: self.stage(stage) },
            Phase::CreateProgram => Request::CreateProgram,
            Phase::Link => Request::LinkProgram {
                program: self.program,
                vertex: self.vertex,
                fragment: self.fragment,
                geometry: if self.geometry != 0 {
                    Some(self.geometry)
                } else {
                    None
                },
            },
            Phase::ProgramLog => Request::ProgramInfoLog { program: self.program },
            Phase::BlockIndex => Request::UniformBlockIndex {
                program: self.program,
                name: MATRICES_BLOCK,
            },
        }
    }

    fn stage(&self, stage: StageKind) -> (handle: u32)
        ensures
            handle == self.stage_of(stage),
    {
        match stage {
            StageKind::Vertex => self.vertex,
            StageKind::Fragment => self.fragment,
            StageKind::Geometry => self.geometry,
        }
    }

    /// What follows the compilation of `stage`: the next stage or the program
    /// if it compiled, the compiler's log if it did not.
    fn check_shader_error(&self, stage: StageKind, compiled: bool) -> (phase: Phase)
        ensures
            phase == (if compiled {
                self.after_stage(stage)
            } else {
                Phase::StageLog(stage)
            }),
    {
        if !compiled {
            Phase::StageLog(stage)
        } else {
            match stage {
                StageKind::Vertex => Phase::CreateStage(StageKind::Fragment),
                StageKind::Fragment => if self.geometry_source.is_some() {
                    Phase::CreateStage(StageKind::Geometry)
                } else {
                    Phase::CreateProgram
                },
                StageKind::Geometry => Phase::CreateProgram,
            }
        }
    }

    fn release_stages(&self) -> (run: Vec<GlCall>)
        ensures
            run@ == self.release_stages_of(),
    {
        let mut run: Vec<GlCall> = Vec::new();
        if self.vertex != 0 {
            run.push(GlCall::DeleteShader { shader: self.vertex });
        }
        if self.fragment != 0 {
            run.push(GlCall::DeleteShader { shader: self.fragment });
        }
        if self.geometry != 0 {
            run.push(GlCall::DeleteShader { shader: self.geometry });
        }
        assert(run@ =~= self.release_stages_of());
        run
    }

    /// Takes the answer to [`ProgramBuild::request`] and goes on with the
    /// construction, as [`ProgramBuild::step_of`] says.
    pub fn advance(self, reply: Reply) -> (step: Step)
        requires
            self.wf(),
        ensures
            step.run@ == self.step_of(reply).0,
            step.next@ == self.step_of(reply).1,
            step.next matches Next::Ask(build) ==> build.wf(),
            step.next matches Next::Done(Ok(shader)) ==> shader.uniforms@.len() == 0,
    {
        let mut build = self;
        match build.phase {
            Phase::CreateStage(stage) => match create_shader(stage, reply.handle()) {
                Err(error) => Step { run: build.release_stages(), next: Next::Done(Err(error)) },
                Ok(handle) => {
                    match stage {
                        StageKind::Vertex => {
                            build.vertex = handle;
                        },
                        StageKind::Fragment => {
                            build.fragment = handle;
                        },
                        StageKind::Geometry => {
                            build.geometry = handle;
                        },
                    }
                    build.phase = Phase::CompileStage(stage);
                    Step { run: Vec::new(), next: Next::Ask(build) }
                },
            },
            Phase::CompileStage(stage) => {
                build.phase = build.check_shader_error(stage, reply.succeeded());
                Step { run: Vec::new(), next: Next::Ask(build) }
            },
            Phase::StageLog(stage) => {
                let run = build.release_stages();
                let failure = ShaderError::Compile { stage, log: reply.text() };
                Step { run, next: Next::Done(Err(failure)) }
            },
            Phase::CreateProgram => match create_program(reply.handle()) {
                Err(error) => Step { run: build.release_stages(), next: Next::Done(Err(error)) },
                Ok(handle) => {
                    build.program = handle;
                    build.phase = Phase::Link;
                    Step { run: Vec::new(), next: Next::Ask(build) }
                },
            },
            Phase::Link => {
                let run = build.release_stages();
                let linked = reply.succeeded();
                if linked && !build.bind_blocks {
                    Step { run, next: Next::Done(Ok(Shader::from_program(build.program))) }
                } else {
                    build.vertex = 0;
                    build.fragment = 0;
                    build.geometry = 0;
                    build.phase = if linked {
                        Phase::BlockIndex
                    } else {
                        Phase::ProgramLog
                    };
                    Step { run, next: Next::Ask(build) }
                }
            },
            Phase::ProgramLog => {
                let run = vec![GlCall::DeleteProgram { program: build.program }];
                Step { run, next: Next::Done(Err(ShaderError::Link { log: reply.text() })) }
            },
            Phase::BlockIndex => {
                let shader = Shader::from_program(build.program);
                let run = vec![shader.apply_block_indexes(reply.handle())];
                Step { run, next: Next::Done(Ok(shader)) }
            },
        }
    }
}

/// Starts the construction of a program from the sources of its vertex and
/// fragment stages and, if there is one, of its geometry stage.
pub fn new_shader_program(
    vertex_shader_src: &str,
    fragment_shader_src: &str,
    geometry_shader_src: Option<&str>,
) -> (build: ProgramBuild)
    ensures
        build.wf(),
        build.phase == Phase::CreateStage(StageKind::Vertex),
        build.vertex_source@ == vertex_shader_src@,
        build.fragment_source@ == fragment_shader_src@,
        (match geometry_shader_src {
            Some(source) => build.geometry_source matches Some(held) && held@ == source@,
            None => build.geometry_source is None,
        }),
        build.owned() == Multiset::<GpuObject>::empty(),
        !build.bind_blocks,
{
    let build = start(vertex_shader_src, fragment_shader_src, geometry_shader_src, false);
    build
}

fn start(
    vertex_shader_src: &str,
    fragment_shader_src: &str,
    geometry_shader_src: Option<&str>,
    bind_blocks: bool,
) -> (build: ProgramBuild)
    ensures
        build.wf(),
        build.phase == Phase::CreateStage(StageKind::Vertex),
        build.vertex_source@ == vertex_shader_src@,
        build.fragment_source@ == fragment_shader_src@,
        (match geometry_shader_src {
            Some(source) => build.geometry_source matches Some(held) && held@ == source@,
            None => build.geometry_source is None,
        }),
        build.owned() == Multiset::<GpuObject>::empty(),
        build.bind_blocks == bind_blocks,
{
    let geometry_source = match geometry_shader_src {
        Some(source) => Some(String::from_str(source)),
        None => None,
    };
    let build = ProgramBuild {
        phase: Phase::CreateStage(StageKind::Vertex),
        vertex_source: String::from_str(vertex_shader_src),
        fragment_source: String::from_str(fragment_shader_src),
        geometry_source,
        vertex: 0,
        fragment: 0,
        geometry: 0,
        program: 0,
        bind_blocks,
    };
    assert(build.owned() =~= Multiset::<GpuObject>::empty());
    build
}

/// One step of a construction neither loses nor invents an object: what the
/// construction owned before, with what the answer brought into being, is
/// what the step's calls delete, with what remains owned or, at the end, is
/// left to the caller. A construction that fails leaves nothing.
pub proof fn lemma_step_accounts(build: ProgramBuild, reply: Reply)
    requires
        build.wf(),
    ensures
        (match build.step_of(reply).1 {
            NextView::Ask(next) => next.wf() && build.owned().add(
                created(build.request_of(), reply),
            ) == released(build.step_of(reply).0).add(next.owned()),
            NextView::Done(result) => build.owned().add(created(build.request_of(), reply))
                == released(build.step_of(reply).0).add(kept(result)),
        }),
{
    let run = build.step_of(reply).0;
    lemma_released_stages(build);
    assert(released(Seq::<GlCall>::empty()) =~= Multiset::<GpuObject>::empty());
    let deletion = seq![GlCall::DeleteProgram { program: build.program }];
    assert(deletion.drop_last() =~= Seq::<GlCall>::empty());
    assert(released(deletion) =~= Multiset::singleton(GpuObject::Program(build.program)));
    let binding = seq![
        GlCall::UniformBlockBinding {
            program: build.program,
            block: reply.handle_of(),
            binding: MATRICES_BINDING,
        },
    ];
    assert(binding.drop_last() =~= Seq::<GlCall>::empty());
    assert(released(binding) =~= Multiset::<GpuObject>::empty());
    match build.step_of(reply).1 {
        NextView::Ask(next) => {
            assert(build.owned().add(created(build.request_of(), reply)) =~= released(run).add(
                next.owned(),
            ));
        },
        NextView::Done(result) => {
            assert(build.owned().add(created(build.request_of(), reply)) =~= released(run).add(
                kept(result),
            ));
        },
    }
}

/// What a construction has done by the time it has taken some answers.
pub struct Run {
    /// The objects that the GPU made for it.
    pub created: Multiset<GpuObject>,
    /// The objects that its calls deleted.
    pub released: Multiset<GpuObject>,
    /// How it ended, if it has.
    pub end: Option<Result<u32, ShaderErrorView>>,
}

/// The run of the construction `build` on the answers `replies`, taken one
/// after the other until the construction is over.
pub open spec fn run_of(build: ProgramBuild, replies: Seq<Reply>) -> Run
    decreases replies.len(),
{
    if replies.len() == 0 {
        Run { created: Multiset::empty(), released: Multiset::empty(), end: None }
    } else {
        let step = build.step_of(replies.first());
        let made = created(build.request_of(), replies.first());
        let gone = released(step.0);
        match step.1 {
            NextView::Done(result) => Run { created: made, released: gone, end: Some(result) },
            NextView::Ask(next) => {
                let rest = run_of(next, replies.drop_first());
                Run {
                    created: made.add(rest.created),
                    released: gone.add(rest.released),
                    end: rest.end,
                }
            },
        }
    }
}

/// A construction that has come to its end has deleted every object that it
/// owned or that was made for it, but for the program that it returns: a
/// failed construction leaves no object behind, and a successful one leaves
/// the program and nothing else.
pub proof fn lemma_run_leaves_nothing(build: ProgramBuild, replies: Seq<Reply>)
    requires
        build.wf(),
    ensures
        run_of(build, replies).end matches Some(result) ==> build.owned().add(
            run_of(build, replies).created,
        ) == run_of(build, replies).released.add(kept(result)),
    decreases replies.len(),
{
    if replies.len() > 0 {
        let reply = replies.first();
        let step = build.step_of(reply);
        let made = created(build.request_of(), reply);
        let gone = released(step.0);
        lemma_step_accounts(build, reply);
        match step.1 {
            NextView::Done(result) => {},
            NextView::Ask(next) => {
                let rest = run_of(next, replies.drop_first());
                lemma_run_leaves_nothing(next, replies.drop_first());
                if rest.end is Some {
                    let result = rest.end.unwrap();
                    assert(build.owned().add(made.add(rest.created)) =~= build.owned().add(
                        made,
                    ).add(rest.created));
                    assert(gone.add(next.owned()).add(rest.created) =~= gone.add(
                        next.owned().add(rest.created),
                    ));
                    assert(gone.add(rest.released.add(kept(result))) =~= gone.add(
                        rest.released,
                    ).add(kept(result)));
                }
            },
        }
    }
}

proof fn lemma_released_push(run: Seq<GlCall>, call: GlCall)
    ensures
        released(run.push(call)) == (match call {
            GlCall::DeleteShader { shader } => released(run).insert(GpuObject::Stage(shader)),
            GlCall::DeleteProgram { program } => released(run).insert(GpuObject::Program(program)),
            _ => released(run),
        }),
{
    assert(run.push(call).drop_last() =~= run);
}

proof fn lemma_released_stages(build: ProgramBuild)
    ensures
        released(build.release_stages_of()).add(
            if build.program != 0 {
                Multiset::singleton(GpuObject::Program(build.program))
            } else {
                Multiset::empty()
            },
        ) == build.owned(),
{
    let empty = Seq::<GlCall>::empty();
    let first = if build.vertex != 0 {
        empty.push(GlCall::DeleteShader { shader: build.vertex })
    } else {
        empty
    };
    let second = if build.fragment != 0 {
        first.push(GlCall::DeleteShader { shader: build.fragment })
    } else {
        first
    };
    let third = if build.geometry != 0 {
        second.push(GlCall::DeleteShader { shader: build.geometry })
    } else {
        second
    };
    lemma_released_push(empty, GlCall::DeleteShader { shader: build.vertex });
    lemma_released_push(first, GlCall::DeleteShader { shader: build.fragment });
    lemma_released_push(second, GlCall::DeleteShader { shader: build.geometry });
    assert(third =~= build.release_stages_of());
    assert(released(empty) =~= Multiset::<GpuObject>::empty());
    assert(released(third).add(
        if build.program != 0 {
            Multiset::singleton(GpuObject::Program(build.program))
        } else {
            Multiset::empty()
        },
    ) =~= build.owned());
}

/// A uniform of a program and where it lies, as far as the GPU has been asked.
#[derive(Clone, PartialEq, Eq, Debug)]
pub struct Uniform {
    pub name: String,
    pub location: i32,
}

/// The location under which `name` was first recorded from `from` on.
pub open spec fn lookup(uniforms: Seq<Uniform>, name: Seq<char>, from: int) -> Option<i32>
    decreases uniforms.len() - from,
{
    if from < 0 || from >= uniforms.len() {
        None
    } else if uniforms[from].name@ == name {
        Some(uniforms[from].location)
    } else {
        lookup(uniforms, name, from + 1)
    }
}

proof fn lemma_lookup_push(uniforms: Seq<Uniform>, last: Uniform, name: Seq<char>, from: int)
    requires
        0 <= from <= uniforms.len(),
    ensures
        lookup(uniforms.push(last), name, from) == (if lookup(uniforms, name, from) is Some {
            lookup(uniforms, name, from)
        } else if last.name@ == name {
            Some(last.location)
        } else {
            None
        }),
    decreases uniforms.len() - from,
{
    let longer = uniforms.push(last);
    if from < uniforms.len() {
        assert(longer[from] == uniforms[from]);
        if uniforms[from].name@ != name {
            lemma_lookup_push(uniforms, last, name, from + 1);
        }
    } else {
        assert(longer[from] == last);
        assert(lookup(longer, name, from + 1) is None);
    }
}

/// What becomes of a write to a uniform.
#[derive(Clone, Copy, PartialEq, Eq, Debug)]
pub enum UniformWrite {
    /// The GPU has not been asked yet where the uniform lies. Ask, record the
    /// answer with [`Shader::record_uniform_location`], and try again.
    Unresolved,
    /// The program has no such uniform: nothing is written.
    Skipped,
    /// The call that writes the value.
    Write(GlCall),
}

/// The call that writes `value` to the uniform at `location`.
pub open spec fn write_of(location: i32, value: UniformValue) -> GlCall {
    match value {
        UniformValue::Bool(flag) => GlCall::Uniform1i {
            location,
            value: if flag {
                1i32
            } else {
                0i32
            },
        },
        UniformValue::Int(value) => GlCall::Uniform1i { location, value },
        UniformValue::Float(value) => GlCall::Uniform1f { location, value },
        UniformValue::Vec2(value) => GlCall::Uniform2f { location, value },
        UniformValue::Vec3(value) => GlCall::Uniform3f { location, value },
        UniformValue::Vec4(value) => GlCall::Uniform4f { location, value },
        UniformValue::Mat4(value) => GlCall::UniformMatrix4fv { location, value },
        UniformValue::Mat4d(value) => GlCall::UniformMatrix4dv { location, value },
    }
}

/// A linked shader program, with the locations of the uniforms that the GPU
/// has been asked for.
#[derive(Clone, PartialEq, Eq, Debug)]
pub struct Shader {
    pub program: u32,
    pub uniforms: Vec<Uniform>,
}

impl Shader {
    /// The recorded locations by name. A uniform that the program does not
    /// have is recorded at [`MISSING_UNIFORM`].
    pub open spec fn locations(&self) -> Map<Seq<char>, i32> {
        Map::new(
            |name: Seq<char>| lookup(self.uniforms@, name, 0) is Some,
            |name: Seq<char>| lookup(self.uniforms@, name, 0).unwrap(),
        )
    }

    /// What a write of `value` to the uniform `name` becomes.
    pub open spec fn write_model(&self, name: Seq<char>, value: UniformValue) -> UniformWrite {
        if !self.locations().contains_key(name) {
            UniformWrite::Unresolved
        } else if self.locations()[name] == MISSING_UNIFORM {
            UniformWrite::Skipped
        } else {
            UniformWrite::Write(write_of(self.locations()[name], value))
        }
    }

    /// Starts the construction of a program from the sources of its vertex
    /// and fragment stages. The block of matrices of the finished program is
    /// bound to its binding point.
    pub fn new(vertex_shader: &str, fragment_shader: &str) -> (build: ProgramBuild)
        ensures
            build.wf(),
            build.phase == Phase::CreateStage(StageKind::Vertex),
            build.vertex_source@ == vertex_shader@,
            build.fragment_source@ == fragment_shader@,
            build.geometry_source is None,
            build.owned() == Multiset::<GpuObject>::empty(),
            build.bind_blocks,
    {
        start(vertex_shader, fragment_shader, None, true)
    }

    /// Starts the construction of a program from the sources of its vertex,
    /// fragment and geometry stages. The block of matrices of the finished
    /// program is bound to its binding point.
    pub fn new_with_geometry(vertex_shader: &str, fragment_shader: &str, geometry_shader: &str) -> (build:
        ProgramBuild)
        ensures
            build.wf(),
            build.phase == Phase::CreateStage(StageKind::Vertex),
            build.vertex_source@ == vertex_shader@,
            build.fragment_source@ == fragment_shader@,
            build.geometry_source matches Some(held) && held@ == geometry_shader@,
            build.owned() == Multiset::<GpuObject>::empty(),
            build.bind_blocks,
    {
        start(vertex_shader, fragment_shader, Some(geometry_shader), true)
    }

    /// The shader of the linked program `program`, with no location recorded.
    pub fn from_program(program: u32) -> (shader: Shader)
        ensures
            shader.program == program,
            shader.uniforms@.len() == 0,
            shader.locations() == Map::<Seq<char>, i32>::empty(),
    {
        let shader = Shader { program, uniforms: Vec::new() };
        assert(shader.locations() =~= Map::<Seq<char>, i32>::empty());
        shader
    }

    /// The call that makes this program the one in use.
    pub fn use_program(&self) -> (call: GlCall)
        ensures
            call == (GlCall::UseProgram { program: self.program }),
    {
        GlCall::UseProgram { program: self.program }
    }

    /// The recorded location of the uniform `uniform`, if the GPU has been
    /// asked for it.
    pub fn get_uniform_location(&self, uniform: &str) -> (location: Option<i32>)
        ensures
            location == (if self.locations().contains_key(uniform@) {
                Some(self.locations()[uniform@])
            } else {
                None
            }),
    {
        let name = String::from_str(uniform);
        let mut i: usize = 0;
        while i < self.uniforms.len()
            invariant
                i <= self.uniforms.len(),
                name@ == uniform@,
                lookup(self.uniforms@, uniform@, 0) == lookup(self.uniforms@, uniform@, i as int),
            decreases self.uniforms.len() - i,
        {
            if self.uniforms[i].name == name {
                return Some(self.uniforms[i].location);
            }
            i += 1;
        }
        None
    }

    /// Records where the GPU says the uniform `uniform` lies,
    /// [`MISSING_UNIFORM`] if the program has none of that name. A location
    /// recorded before stays. Returns whether a missing uniform was recorded,
    /// which is the occasion to warn of it.
    pub fn record_uniform_location(&mut self, uniform: &str, location: i32) -> (missing: bool)
        ensures
            final(self).program == old(self).program,
            final(self).locations() == (if old(self).locations().contains_key(uniform@) {
                old(self).locations()
            } else {
                old(self).locations().insert(uniform@, location)
            }),
            missing == (!old(self).locations().contains_key(uniform@) && location
                == MISSING_UNIFORM),
    {
        if self.get_uniform_location(uniform).is_some() {
            return false;
        }
        let entry = Uniform { name: String::from_str(uniform), location };
        proof {
            assert forall|name: Seq<char>|
                lookup(self.uniforms@.push(entry), name, 0) == (if lookup(
                    self.uniforms@,
                    name,
                    0,
                ) is Some {
                    lookup(self.uniforms@, name, 0)
                } else if name == uniform@ {
                    Some(location)
                } else {
                    None
                }) by {
                lemma_lookup_push(self.uniforms@, entry, name, 0);
            }
        }
        self.uniforms.push(entry);
        assert(self.locations() =~= old(self).locations().insert(uniform@, location));
        location == MISSING_UNIFORM
    }

    /// What a write of `value` to the uniform `name` becomes: a call if the
    /// uniform's location is known, nothing if the program has no such
    /// uniform.
    pub fn uniform(&self, name: &str, value: UniformValue) -> (write: UniformWrite)
        ensures
            write == self.write_model(name@, value),
    {
        match self.get_uniform_location(name) {
            None => UniformWrite::Unresolved,
            Some(location) => {
                if location == MISSING_UNIFORM {
                    UniformWrite::Skipped
                } else {
                    UniformWrite::Write(
                        match value {
                            UniformValue::Bool(flag) => GlCall::Uniform1i {
                                location,
                                value: if flag {
                                    1
                                } else {
                                    0
                                },
                            },
                            UniformValue::Int(value) => GlCall::Uniform1i { location, value },
                            UniformValue::Float(value) => GlCall::Uniform1f { location, value },
                            UniformValue::Vec2(value) => GlCall::Uniform2f { location, value },
                            UniformValue::Vec3(value) => GlCall::Uniform3f { location, value },
                            UniformValue::Vec4(value) => GlCall::Uniform4f { location, value },
                            UniformValue::Mat4(value) => GlCall::UniformMatrix4fv { location, value },
                            UniformValue::Mat4d(value) => GlCall::UniformMatrix4dv {
                                location,
                                value,
                            },
                        },
                    )
                }
            },
        }
    }

    /// Writes a truth value, as 1 or 0.
    pub fn set_bool(&self, name: &str, value: bool) -> (write: UniformWrite)
        ensures
            write == self.write_model(name@, UniformValue::Bool(value)),
    {
        self.uniform(name, UniformValue::Bool(value))
    }

    /// Writes an integer.
    pub fn set_i32(&self, name: &str, value: i32) -> (write: UniformWrite)
        ensures
            write == self.write_model(name@, UniformValue::Int(value)),
    {
        self.uniform(name, UniformValue::Int(value))
    }

    /// Writes a single-precision number, given by its bits.
    pub fn set_float(&self, name: &str, value: u32) -> (write: UniformWrite)
        ensures
            write == self.write_model(name@, UniformValue::Float(value)),
    {
        self.uniform(name, UniformValue::Float(value))
    }

    /// Writes a vector of two single-precision numbers.
    pub fn set_vec2f(&self, name: &str, value: &[u32; 2]) -> (write: UniformWrite)
        ensures
            write == self.write_model(name@, UniformValue::Vec2(*value)),
    {
        self.uniform(name, UniformValue::Vec2(*value))
    }

    /// Writes a vector of three single-precision numbers.
    pub fn set_vec3f(&self, name: &str, value: &[u32; 3]) -> (write: UniformWrite)
        ensures
            write == self.write_model(name@, UniformValue::Vec3(*value)),
    {
        self.uniform(name, UniformValue::Vec3(*value))
    }

    /// Writes a vector of four single-precision numbers.
    pub fn set_vec4f(&self, name: &str, value: &[u32; 4]) -> (write: UniformWrite)
        ensures
            write == self.write_model(name@, UniformValue::Vec4(*value)),
    {
        self.uniform(name, UniformValue::Vec4(*value))
    }

    /// Writes a 4x4 matrix of single-precision numbers.
    pub fn set_mat4f(&self, name: &str, value: &[u32; 16]) -> (write: UniformWrite)
        ensures
            write == self.write_model(name@, UniformValue::Mat4(*value)),
    {
        self.uniform(name, UniformValue::Mat4(*value))
    }

    /// Writes a 4x4 matrix of double-precision numbers.
    pub fn set_mat4d(&self, name: &str, value: &[u64; 16]) -> (write: UniformWrite)
        ensures
            write == self.write_model(name@, UniformValue::Mat4d(*value)),
    {
        self.uniform(name, UniformValue::Mat4d(*value))
    }

    /// The call that deletes the program.
    pub fn delete(&mut self) -> (call: GlCall)
        ensures
            *final(self) == *old(self),
            call == (GlCall::DeleteProgram { program: old(self).program }),
    {
        GlCall::DeleteProgram { program: self.program }
    }

    /// The call that binds the block of matrices, which the GPU says has the
    /// index `block_index`, to its binding point.
    pub fn apply_block_indexes(&self, block_index: u32) -> (call: GlCall)
        ensures
            call == (GlCall::UniformBlockBinding {
                program: self.program,
                block: block_index,
                binding: MATRICES_BINDING,
            }),
    {
        GlCall::UniformBlockBinding {
            program: self.program,
            block: block_index,
            binding: MATRICES_BINDING,
        }
    }
}

} // verus!
