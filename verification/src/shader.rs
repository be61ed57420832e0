//! Shader program construction.
//!
//! A program is built from a vertex and a fragment source file: both texts
//! are read, each stage is compiled, the two stages are linked, and the
//! intermediate stage handles are released after the link attempt whether
//! or not it succeeded.  Reading, compiling and linking are native calls
//! an unverified shell performs; [`ShaderBuilder`] is the verified state
//! machine that decides what to ask for next and how to turn each outcome
//! into the next state or into the right error.
//!
//! Driver logs are kept as raw bytes: a compile error carries at most
//! [`MAX_LOG_BYTES`] bytes of the driver's log, and a link error carries
//! the same excerpt with the driver's literal two-character `\n` escape
//! sequences normalized to actual newline bytes.

use vstd::prelude::*;

use crate::gfx::GfxOp;

verus! {

/// Upper bound, in bytes, on the stored excerpt of a driver log.
pub const MAX_LOG_BYTES: usize = 512;

/// Byte value of `\`, the first byte of a literal escape sequence.
pub const BACKSLASH_BYTE: u8 = 0x5c;

/// Byte value of `n`, the second byte of a literal newline escape.
pub const ESCAPE_N_BYTE: u8 = 0x6e;

/// Byte value of an actual newline.
pub const NEWLINE_BYTE: u8 = 0x0a;

/// One compiled unit before linking.
#[derive(Clone, Copy, Debug, PartialEq, Eq, Structural)]
pub enum StageKind {
    Vertex,
    Fragment,
}

/// Why a shader program could not be built.
#[derive(Clone, Debug, PartialEq, Eq)]
pub enum ShaderError {
    /// A source file could not be read; carries the underlying message.
    File { message: String },
    /// A stage failed to compile; carries the driver's log excerpt.
    Compile { stage: StageKind, log: Vec<u8> },
    /// The two stages were incompatible at link time; carries the driver's
    /// log excerpt with newline escapes normalized.
    Link { log: Vec<u8> },
}

/// A handle to a linked program.
#[derive(Debug, PartialEq, Eq)]
pub struct Shader {
    id: u32,
}

impl Shader {
    /// The native handle of the linked program.
    pub closed spec fn spec_id(&self) -> u32 {
        self.id
    }

    /// Wraps a linked program handle the native API handed out.
    pub fn new(program: u32) -> (s: Shader)
        ensures
            s.spec_id() == program,
    {
        Shader { id: program }
    }

    /// The native handle of the linked program.
    pub fn program_id(&self) -> (r: u32)
        ensures
            r == self.spec_id(),
    {
        self.id
    }

    /// The operation that makes this program the active one.  Activation
    /// is a global context side effect, not scoped to this object.
    pub fn enable(&self) -> (op: GfxOp)
        ensures
            op == (GfxOp::UseProgram { program: self.spec_id() }),
    {
        GfxOp::UseProgram { program: self.id }
    }

    /// The operation that releases the linked program handle.
    pub fn release_op(&self) -> (op: GfxOp)
        ensures
            op == (GfxOp::DeleteProgram { program: self.spec_id() }),
    {
        GfxOp::DeleteProgram { program: self.id }
    }
}

/// The stored excerpt of a driver log: the log itself if it is short
/// enough, else its first [`MAX_LOG_BYTES`] bytes.
pub open spec fn log_excerpt(s: Seq<u8>) -> Seq<u8> {
    if s.len() <= MAX_LOG_BYTES {
        s
    } else {
        s.subrange(0, MAX_LOG_BYTES as int)
    }
}

/// Truncates a driver log to at most [`MAX_LOG_BYTES`] bytes.
pub fn take_log_excerpt(log: Vec<u8>) -> (r: Vec<u8>)
    ensures
        r@ == log_excerpt(log@),
{
    let mut log = log;
    log.truncate(MAX_LOG_BYTES);
    log
}

/// A log with every literal two-character `\n` escape replaced, left to
/// right, by an actual newline byte.
pub open spec fn normalize_escapes(s: Seq<u8>) -> Seq<u8>
    decreases s.len(),
{
    if s.len() == 0 {
        Seq::empty()
    } else if s.len() >= 2 && s[0] == BACKSLASH_BYTE && s[1] == ESCAPE_N_BYTE {
        seq![NEWLINE_BYTE] + normalize_escapes(s.skip(2))
    } else {
        seq![s[0]] + normalize_escapes(s.skip(1))
    }
}

/// Replaces every literal `\n` escape in a link log by a newline byte.
pub fn normalize_newline_escapes(log: &Vec<u8>) -> (r: Vec<u8>)
    ensures
        r@ == normalize_escapes(log@),
{
    let mut r: Vec<u8> = Vec::new();
    let mut i: usize = 0;
    proof {
        assert(log@.skip(0) =~= log@);
        assert(r@ + normalize_escapes(log@) =~= normalize_escapes(log@));
    }
    while i < log.len()
        invariant
            i <= log@.len(),
            normalize_escapes(log@) == r@ + normalize_escapes(log@.skip(i as int)),
        decreases log@.len() - i,
    {
        let ghost rest = log@.skip(i as int);
        if i + 1 < log.len() && log[i] == BACKSLASH_BYTE && log[i + 1] == ESCAPE_N_BYTE {
            proof {
                assert(rest.len() >= 2);
                assert(rest[0] == log@[i as int]);
                assert(rest[1] == log@[i as int + 1]);
                assert(rest.skip(2) =~= log@.skip(i as int + 2));
                assert(normalize_escapes(rest) == seq![NEWLINE_BYTE] + normalize_escapes(
                    log@.skip(i as int + 2),
                ));
            }
            r.push(NEWLINE_BYTE);
            proof {
                assert(r@ + normalize_escapes(log@.skip(i as int + 2)) =~= normalize_escapes(
                    log@,
                ));
            }
            i = i + 2;
        } else {
            proof {
                assert(rest.len() >= 1);
                assert(rest[0] == log@[i as int]);
                assert(rest.skip(1) =~= log@.skip(i as int + 1));
                assert(!(rest.len() >= 2 && rest[0] == BACKSLASH_BYTE && rest[1]
                    == ESCAPE_N_BYTE));
                assert(normalize_escapes(rest) == seq![rest[0]] + normalize_escapes(
                    log@.skip(i as int + 1),
                ));
            }
            r.push(log[i]);
            proof {
                assert(r@ + normalize_escapes(log@.skip(i as int + 1)) =~= normalize_escapes(
                    log@,
                ));
            }
            i = i + 1;
        }
    }
    proof {
        assert(log@.skip(i as int) =~= Seq::<u8>::empty());
        assert(normalize_escapes(Seq::<u8>::empty()) =~= Seq::<u8>::empty());
        assert(r@ =~= normalize_escapes(log@));
    }
    r
}

/// Where a program build stands.  Stage and program handles are the opaque
/// integer names the native API handed out.
#[derive(Debug, PartialEq, Eq)]
pub enum ShaderPhase {
    /// Both source texts still have to be read.
    ReadSources,
    /// The vertex stage still has to be compiled.
    CompileVertex,
    /// The fragment stage still has to be compiled.
    CompileFragment { vertex_stage: u32 },
    /// Both stages compiled; they still have to be linked.
    Link { vertex_stage: u32, fragment_stage: u32 },
    /// The link attempt is over; the two intermediate stage handles must
    /// be released before the outcome is reported, success or not.
    ReleaseStages { vertex_stage: u32, fragment_stage: u32, outcome: Result<u32, ShaderError> },
    /// The build succeeded with this linked program handle.
    Done { program: u32 },
    /// The build failed.
    Failed { error: ShaderError },
}

/// What the unverified shell must do next for the build.
#[derive(Clone, Copy, Debug, PartialEq, Eq, Structural)]
pub enum ShaderRequest {
    /// Read both source files as text.
    ReadSources,
    /// Compile the source text of one stage.
    CompileStage { stage: StageKind },
    /// Link the two compiled stages into a program.
    LinkProgram { vertex_stage: u32, fragment_stage: u32 },
    /// Release the two intermediate stage handles.
    ReleaseStages { vertex_stage: u32, fragment_stage: u32 },
}

/// The outcome of one native call, handed back to the build machine.
#[derive(Clone, Debug, PartialEq, Eq)]
pub enum ShaderEvent {
    /// Both source files were read (the shell keeps the text).
    SourcesRead,
    /// A source file could not be read.
    SourceReadFailed { message: String },
    /// The requested stage compiled into this handle.
    StageCompiled { stage_handle: u32 },
    /// The requested stage did not compile; carries the raw driver log.
    StageCompileFailed { log: Vec<u8> },
    /// The two stages linked into this program handle.
    Linked { program: u32 },
    /// The two stages were incompatible; carries the raw driver log.
    LinkFailed { log: Vec<u8> },
    /// The two intermediate stage handles were released.
    StagesReleased,
}

/// Which events answer the request pending in a phase.
pub open spec fn phase_accepts(p: ShaderPhase, ev: ShaderEvent) -> bool {
    match p {
        ShaderPhase::ReadSources => ev is SourcesRead || ev is SourceReadFailed,
        ShaderPhase::CompileVertex => ev is StageCompiled || ev is StageCompileFailed,
        ShaderPhase::CompileFragment { .. } => ev is StageCompiled || ev is StageCompileFailed,
        ShaderPhase::Link { .. } => ev is Linked || ev is LinkFailed,
        ShaderPhase::ReleaseStages { .. } => ev is StagesReleased,
        ShaderPhase::Done { .. } => false,
        ShaderPhase::Failed { .. } => false,
    }
}

/// The transition relation of the build machine: from phase `p`, outcome
/// `ev` leads to phase `q`.
pub open spec fn step_rel(p: ShaderPhase, ev: ShaderEvent, q: ShaderPhase) -> bool {
    match p {
        ShaderPhase::ReadSources => match ev {
            ShaderEvent::SourcesRead => q == ShaderPhase::CompileVertex,
            ShaderEvent::SourceReadFailed { message } => q == (ShaderPhase::Failed {
                error: ShaderError::File { message },
            }),
            _ => false,
        },
        ShaderPhase::CompileVertex => match ev {
            ShaderEvent::StageCompiled { stage_handle } => q == (ShaderPhase::CompileFragment {
                vertex_stage: stage_handle,
            }),
            ShaderEvent::StageCompileFailed { log } => {
                &&& q matches ShaderPhase::Failed {
                    error: ShaderError::Compile { stage: StageKind::Vertex, log: stored },
                }
                &&& stored@ == log_excerpt(log@)
            },
            _ => false,
        },
        ShaderPhase::CompileFragment { vertex_stage } => match ev {
            ShaderEvent::StageCompiled { stage_handle } => q == (ShaderPhase::Link {
                vertex_stage,
                fragment_stage: stage_handle,
            }),
            ShaderEvent::StageCompileFailed { log } => {
                &&& q matches ShaderPhase::Failed {
                    error: ShaderError::Compile { stage: StageKind::Fragment, log: stored },
                }
                &&& stored@ == log_excerpt(log@)
            },
            _ => false,
        },
        ShaderPhase::Link { vertex_stage, fragment_stage } => match ev {
            ShaderEvent::Linked { program } => q == (ShaderPhase::ReleaseStages {
                vertex_stage,
                fragment_stage,
                outcome: Ok(program),
            }),
            ShaderEvent::LinkFailed { log } => {
                &&& q matches ShaderPhase::ReleaseStages {
                    vertex_stage: v,
                    fragment_stage: f,
                    outcome: Err(ShaderError::Link { log: stored }),
                }
                &&& v == vertex_stage
                &&& f == fragment_stage
                &&& stored@ == normalize_escapes(log_excerpt(log@))
            },
            _ => false,
        },
        ShaderPhase::ReleaseStages { outcome, .. } => match ev {
            ShaderEvent::StagesReleased => match outcome {
                Ok(program) => q == (ShaderPhase::Done { program }),
                Err(error) => q == (ShaderPhase::Failed { error }),
            },
            _ => false,
        },
        ShaderPhase::Done { .. } => false,
        ShaderPhase::Failed { .. } => false,
    }
}

/// The native work pending in a phase, if any.
pub open spec fn request_spec(p: ShaderPhase) -> Option<ShaderRequest> {
    match p {
        ShaderPhase::ReadSources => Some(ShaderRequest::ReadSources),
        ShaderPhase::CompileVertex => Some(
            ShaderRequest::CompileStage { stage: StageKind::Vertex },
        ),
        ShaderPhase::CompileFragment { .. } => Some(
            ShaderRequest::CompileStage { stage: StageKind::Fragment },
        ),
        ShaderPhase::Link { vertex_stage, fragment_stage } => Some(
            ShaderRequest::LinkProgram { vertex_stage, fragment_stage },
        ),
        ShaderPhase::ReleaseStages { vertex_stage, fragment_stage, .. } => Some(
            ShaderRequest::ReleaseStages { vertex_stage, fragment_stage },
        ),
        ShaderPhase::Done { .. } => None,
        ShaderPhase::Failed { .. } => None,
    }
}

/// The verified build machine for one shader program.
///
/// The unverified shell repeats: ask [`ShaderBuilder::request`] what to do,
/// perform that native call, and hand the outcome to
/// [`ShaderBuilder::step`]; when no request is left, [`ShaderBuilder::into_result`]
/// yields the program or the error.
pub struct ShaderBuilder {
    /// Where the build stands.
    pub phase: ShaderPhase,
}

impl ShaderBuilder {
    /// Starts a build: both source files still have to be read.
    pub fn new() -> (b: ShaderBuilder)
        ensures
            b.phase == ShaderPhase::ReadSources,
    {
        ShaderBuilder { phase: ShaderPhase::ReadSources }
    }

    /// The native work the shell must perform next, or `None` when the
    /// build is over.
    pub fn request(&self) -> (r: Option<ShaderRequest>)
        ensures
            r == request_spec(self.phase),
    {
        match &self.phase {
            ShaderPhase::ReadSources => Some(ShaderRequest::ReadSources),
            ShaderPhase::CompileVertex => Some(
                ShaderRequest::CompileStage { stage: StageKind::Vertex },
            ),
            ShaderPhase::CompileFragment { .. } => Some(
                ShaderRequest::CompileStage { stage: StageKind::Fragment },
            ),
            ShaderPhase::Link { vertex_stage, fragment_stage } => Some(
                ShaderRequest::LinkProgram {
                    vertex_stage: *vertex_stage,
                    fragment_stage: *fragment_stage,
                },
            ),
            ShaderPhase::ReleaseStages { vertex_stage, fragment_stage, .. } => Some(
                ShaderRequest::ReleaseStages {
                    vertex_stage: *vertex_stage,
                    fragment_stage: *fragment_stage,
                },
            ),
            ShaderPhase::Done { .. } => None,
            ShaderPhase::Failed { .. } => None,
        }
    }

    /// True when the build is over, one way or the other.
    pub fn finished(&self) -> (r: bool)
        ensures
            r == (self.phase is Done || self.phase is Failed),
    {
        match &self.phase {
            ShaderPhase::Done { .. } => true,
            ShaderPhase::Failed { .. } => true,
            _ => false,
        }
    }

    /// Feeds the outcome of the pending native call into the machine.
    pub fn step(self, ev: ShaderEvent) -> (r: ShaderBuilder)
        requires
            phase_accepts(self.phase, ev),
        ensures
            step_rel(self.phase, ev, r.phase),
    {
        let ShaderBuilder { phase } = self;
        let next: ShaderPhase = match (phase, ev) {
            (ShaderPhase::ReadSources, ShaderEvent::SourcesRead) => ShaderPhase::CompileVertex,
            (ShaderPhase::ReadSources, ShaderEvent::SourceReadFailed { message }) => (
            ShaderPhase::Failed { error: ShaderError::File { message } }),
            (ShaderPhase::CompileVertex, ShaderEvent::StageCompiled { stage_handle }) => (
            ShaderPhase::CompileFragment { vertex_stage: stage_handle }),
            (ShaderPhase::CompileVertex, ShaderEvent::StageCompileFailed { log }) => (
            ShaderPhase::Failed {
                error: ShaderError::Compile {
                    stage: StageKind::Vertex,
                    log: take_log_excerpt(log),
                },
            }),
            (
                ShaderPhase::CompileFragment { vertex_stage },
                ShaderEvent::StageCompiled { stage_handle },
            ) => ShaderPhase::Link { vertex_stage, fragment_stage: stage_handle },
            (
                ShaderPhase::CompileFragment { .. },
                ShaderEvent::StageCompileFailed { log },
            ) => (ShaderPhase::Failed {
                error: ShaderError::Compile {
                    stage: StageKind::Fragment,
                    log: take_log_excerpt(log),
                },
            }),
            (
                ShaderPhase::Link { vertex_stage, fragment_stage },
                ShaderEvent::Linked { program },
            ) => ShaderPhase::ReleaseStages { vertex_stage, fragment_stage, outcome: Ok(program) },
            (
                ShaderPhase::Link { vertex_stage, fragment_stage },
                ShaderEvent::LinkFailed { log },
            ) => {
                let excerpt = take_log_excerpt(log);
                ShaderPhase::ReleaseStages {
                    vertex_stage,
                    fragment_stage,
                    outcome: Err(
                        ShaderError::Link { log: normalize_newline_escapes(&excerpt) },
                    ),
                }
            },
            (ShaderPhase::ReleaseStages { outcome, .. }, ShaderEvent::StagesReleased) => match outcome {
                Ok(program) => ShaderPhase::Done { program },
                Err(error) => ShaderPhase::Failed { error },
            },
            // Excluded by the precondition: no other event answers a
            // pending request.
            _ => ShaderPhase::CompileVertex,
        };
        ShaderBuilder { phase: next }
    }

    /// The finished build's outcome: the linked program, or why there is
    /// none.
    pub fn into_result(self) -> (r: Result<Shader, ShaderError>)
        requires
            self.phase is Done || self.phase is Failed,
        ensures
            self.phase matches ShaderPhase::Done { program } ==> (r matches Ok(s)
                && s.spec_id() == program),
            self.phase matches ShaderPhase::Failed { error } ==> r == Err::<
                Shader,
                ShaderError,
            >(error),
    {
        match self.phase {
            ShaderPhase::Done { program } => Ok(Shader { id: program }),
            ShaderPhase::Failed { error } => Err(error),
            // Excluded by the precondition: the build is over.
            _ => Err(ShaderError::Compile { stage: StageKind::Vertex, log: Vec::new() }),
        }
    }
}

/// Law: a failed stage compile always fails the build with the compile
/// error kind for exactly the stage that was being compiled, carrying the
/// driver's log truncated to at most [`MAX_LOG_BYTES`] bytes and non-empty
/// whenever the driver's log was non-empty.
pub proof fn compile_failure_reports_compile_error(
    p: ShaderPhase,
    ev: ShaderEvent,
    q: ShaderPhase,
)
    requires
        p is CompileVertex || p is CompileFragment,
        ev is StageCompileFailed,
        step_rel(p, ev, q),
    ensures
        q matches ShaderPhase::Failed { error } && error is Compile,
        q matches ShaderPhase::Failed { error: ShaderError::Compile { stage, log } } ==> {
            &&& stage == (if p is CompileVertex {
                StageKind::Vertex
            } else {
                StageKind::Fragment
            })
            &&& log@.len() <= MAX_LOG_BYTES
            &&& ev->StageCompileFailed_log@.len() > 0 ==> log@.len() > 0
        },
{
}

/// Law: stages that compiled individually but were incompatible at link
/// time fail the build with the link error kind, never the compile kind,
/// and both intermediate stage handles are released before the failure is
/// reported.
pub proof fn link_failure_reports_link_error(
    p: ShaderPhase,
    ev: ShaderEvent,
    q: ShaderPhase,
    r: ShaderPhase,
)
    requires
        p is Link,
        ev is LinkFailed,
        step_rel(p, ev, q),
        step_rel(q, ShaderEvent::StagesReleased, r),
    ensures
        q matches ShaderPhase::ReleaseStages { vertex_stage, fragment_stage, .. }
            && vertex_stage == p->Link_vertex_stage && fragment_stage == p->Link_fragment_stage,
        r matches ShaderPhase::Failed { error } && error is Link && !(error is Compile),
{
}

/// Law: when every native call succeeds, the build ends in `Done` with
/// exactly the program handle the link step produced, after releasing both
/// stage handles.
pub proof fn successful_build_yields_program(
    q1: ShaderPhase,
    vertex_stage: u32,
    q2: ShaderPhase,
    fragment_stage: u32,
    q3: ShaderPhase,
    program: u32,
    q4: ShaderPhase,
    q5: ShaderPhase,
)
    requires
        step_rel(ShaderPhase::ReadSources, ShaderEvent::SourcesRead, q1),
        step_rel(q1, ShaderEvent::StageCompiled { stage_handle: vertex_stage }, q2),
        step_rel(q2, ShaderEvent::StageCompiled { stage_handle: fragment_stage }, q3),
        step_rel(q3, ShaderEvent::Linked { program }, q4),
        step_rel(q4, ShaderEvent::StagesReleased, q5),
    ensures
        q3 == (ShaderPhase::Link { vertex_stage, fragment_stage }),
        q4 == (ShaderPhase::ReleaseStages { vertex_stage, fragment_stage, outcome: Ok(program) }),
        q5 == (ShaderPhase::Done { program }),
{
}

} // verus!
