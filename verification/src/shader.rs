//! The shader program: the checks on what the device reports while a program
//! is built, and the resolution of uniform names to locations.
//!
//! Component values are IEEE-754 single-precision bit patterns, carried as
//! `u32` and handed to the device unchanged.

use vstd::prelude::*;
use vstd::string::StringExecFns;

verus! {

/// The location that stands for a name that is no active uniform. The device
/// ignores a write to it.
pub const NOT_FOUND: i32 = -1;

/// One of the two stages of a program.
#[derive(Clone, Copy, Debug, PartialEq, Eq, Structural)]
pub enum Stage {
    Vertex,
    Fragment,
}

/// What the device reported after compiling one stage.
#[derive(Clone, Debug, PartialEq, Eq)]
pub struct StageReport {
    pub compiled: bool,
    pub handle: u32,
    pub log: String,
}

/// One uniform of a linked program, as the device lists it.
#[derive(Clone, Debug, PartialEq, Eq)]
pub struct UniformSlot {
    pub name: String,
    pub location: i32,
}

/// What the device reported after linking the two stages.
#[derive(Clone, Debug, PartialEq, Eq)]
pub struct LinkReport {
    pub linked: bool,
    pub handle: u32,
    pub log: String,
    pub uniforms: Vec<UniformSlot>,
}

/// Why no program could be built, with the device's log.
#[derive(Clone, Debug, PartialEq, Eq)]
pub enum ShaderError {
    Compile { stage: Stage, log: String },
    Link { log: String },
}

/// One call that the host makes on the device for a program.
#[derive(Clone, Copy, Debug, PartialEq, Eq)]
pub enum DeviceCall {
    /// Make the program the active one.
    UseProgram { program: u32 },
    /// Write three components to the uniform at `location`.
    WriteVec3 { location: i32, x: u32, y: u32, z: u32 },
    /// Write the sixteen components of a 4x4 matrix to the uniform at `location`.
    WriteMat4 { location: i32, values: [u32; 16] },
    /// Release the program.
    DeleteProgram { program: u32 },
}

/// What a program is, to its contracts: its handle and its uniforms, each a
/// name with its location, in the order in which the device listed them.
pub struct ProgramView {
    pub handle: u32,
    pub uniforms: Seq<(Seq<char>, int)>,
}

#[derive(Clone, Debug)]
pub struct ShaderProgram {
    handle: u32,
    uniforms: Vec<UniformSlot>,
}

/// The names and locations of `slots`.
pub open spec fn slot_views(slots: Seq<UniformSlot>) -> Seq<(Seq<char>, int)> {
    Seq::new(slots.len(), |i: int| (slots[i].name@, slots[i].location as int))
}

/// The location of the first uniform at or after index `from` that bears
/// `name` and has a location, or `NOT_FOUND`.
pub open spec fn resolve_from(uniforms: Seq<(Seq<char>, int)>, name: Seq<char>, from: int) -> int
    decreases uniforms.len() - from,
{
    if from < 0 || from >= uniforms.len() {
        NOT_FOUND as int
    } else if uniforms[from].0 == name && uniforms[from].1 >= 0 {
        uniforms[from].1
    } else {
        resolve_from(uniforms, name, from + 1)
    }
}

/// The location that `name` resolves to among `uniforms`.
pub open spec fn resolve(uniforms: Seq<(Seq<char>, int)>, name: Seq<char>) -> int {
    resolve_from(uniforms, name, 0)
}

/// Whether `name` is an active uniform: one that is listed with a location.
pub open spec fn is_active(uniforms: Seq<(Seq<char>, int)>, name: Seq<char>) -> bool {
    exists|i: int| 0 <= i < uniforms.len() && (#[trigger] uniforms[i]).0 == name && uniforms[i].1 >= 0
}

/// The fixed text that a diagnostic message begins with.
pub open spec fn headline(error: ShaderError) -> Seq<char> {
    match error {
        ShaderError::Compile { stage: Stage::Vertex, .. } => "error: vertex stage failed to compile: "@,
        ShaderError::Compile { stage: Stage::Fragment, .. } => "error: fragment stage failed to compile: "@,
        ShaderError::Link { .. } => "error: program failed to link: "@,
    }
}

/// The device's log that an error carries.
pub open spec fn log_of(error: ShaderError) -> Seq<char> {
    match error {
        ShaderError::Compile { log, .. } => log@,
        ShaderError::Link { log } => log@,
    }
}

/// The diagnostic message of an error: the headline, then the device's log.
pub open spec fn message_of(error: ShaderError) -> Seq<char> {
    headline(error) + log_of(error)
}

/// The outcome of the check on one stage.
pub open spec fn stage_outcome(stage: Stage, report: StageReport) -> Result<u32, ShaderError> {
    if report.compiled {
        Ok(report.handle)
    } else {
        Err(ShaderError::Compile { stage, log: report.log })
    }
}

/// The error of a build, if it has one: that of the first step that failed.
pub open spec fn build_error(vertex: StageReport, fragment: StageReport, link: LinkReport) -> Option<
    ShaderError,
> {
    if !vertex.compiled {
        Some(ShaderError::Compile { stage: Stage::Vertex, log: vertex.log })
    } else if !fragment.compiled {
        Some(ShaderError::Compile { stage: Stage::Fragment, log: fragment.log })
    } else if !link.linked {
        Some(ShaderError::Link { log: link.log })
    } else {
        None
    }
}

impl ShaderError {
    /// The diagnostic message: what failed, then the device's log.
    pub fn message(&self) -> (r: String)
        ensures
            r@ == message_of(*self),
    {
        match self {
            ShaderError::Compile { stage: Stage::Vertex, log } => String::from_str(
                "error: vertex stage failed to compile: ",
            ).concat(log.as_str()),
            ShaderError::Compile { stage: Stage::Fragment, log } => String::from_str(
                "error: fragment stage failed to compile: ",
            ).concat(log.as_str()),
            ShaderError::Link { log } => String::from_str("error: program failed to link: ").concat(
                log.as_str(),
            ),
        }
    }
}

impl View for ShaderProgram {
    type V = ProgramView;

    closed spec fn view(&self) -> ProgramView {
        ProgramView { handle: self.handle, uniforms: slot_views(self.uniforms@) }
    }
}

impl ShaderProgram {
    /// Checks the compile status of one stage: its handle, or the error with the device's log.
    pub fn check_stage(stage: Stage, report: StageReport) -> (r: Result<u32, ShaderError>)
        ensures
            r == stage_outcome(stage, report),
    {
        if report.compiled {
            Ok(report.handle)
        } else {
            Err(ShaderError::Compile { stage, log: report.log })
        }
    }

    /// Checks the link status: the program with its uniforms, or the error with the device's log.
    pub fn check_link(report: LinkReport) -> (r: Result<ShaderProgram, ShaderError>)
        ensures
            report.linked ==> r is Ok && r->Ok_0@ == (ProgramView {
                handle: report.handle,
                uniforms: slot_views(report.uniforms@),
            }),
            !report.linked ==> r == Err::<ShaderProgram, ShaderError>(
                ShaderError::Link { log: report.log },
            ),
    {
        if report.linked {
            Ok(ShaderProgram { handle: report.handle, uniforms: report.uniforms })
        } else {
            Err(ShaderError::Link { log: report.log })
        }
    }

    /// Builds a program from what the device reported for the vertex stage,
    /// the fragment stage and the link. The first failure in that order is
    /// the error; with none, the program is the linked one.
    pub fn compile(vertex: StageReport, fragment: StageReport, link: LinkReport) -> (r: Result<
        ShaderProgram,
        ShaderError,
    >)
        ensures
            match build_error(vertex, fragment, link) {
                Some(e) => r == Err::<ShaderProgram, ShaderError>(e),
                None => r is Ok && r->Ok_0@ == (ProgramView {
                    handle: link.handle,
                    uniforms: slot_views(link.uniforms@),
                }),
            },
    {
        match Self::check_stage(Stage::Vertex, vertex) {
            Err(e) => { return Err(e); },
            Ok(_) => {},
        }
        match Self::check_stage(Stage::Fragment, fragment) {
            Err(e) => { return Err(e); },
            Ok(_) => {},
        }
        Self::check_link(link)
    }

    /// The device's handle of the program.
    pub fn handle(&self) -> (r: u32)
        ensures
            r == self@.handle,
    {
        self.handle
    }

    /// The call that makes this program the active one.
    pub fn use_program(&self) -> (r: DeviceCall)
        ensures
            r == (DeviceCall::UseProgram { program: self@.handle }),
    {
        DeviceCall::UseProgram { program: self.handle }
    }

    /// Gives the program up: the call that releases it on the device.
    pub fn release(self) -> (r: DeviceCall)
        ensures
            r == (DeviceCall::DeleteProgram { program: self@.handle }),
    {
        DeviceCall::DeleteProgram { program: self.handle }
    }

    /// The location of the uniform `name`, or `NOT_FOUND` where the program has none of that name.
    pub fn location(&self, name: &str) -> (r: i32)
        ensures
            r as int == resolve(self@.uniforms, name@),
    {
        let wanted = String::from_str(name);
        let ghost uniforms = self@.uniforms;
        let mut i: usize = 0;
        while i < self.uniforms.len()
            invariant
                i <= self.uniforms.len(),
                uniforms == slot_views(self.uniforms@),
                wanted@ == name@,
                resolve(uniforms, name@) == resolve_from(uniforms, name@, i as int),
            decreases self.uniforms.len() - i,
        {
            let slot = &self.uniforms[i];
            assert(uniforms[i as int] == (slot.name@, slot.location as int));
            if slot.location >= 0 && slot.name == wanted {
                return slot.location;
            }
            i += 1;
        }
        NOT_FOUND
    }

    /// The write of a three-component vector to the uniform `name`. Where
    /// `name` is no active uniform the write goes to `NOT_FOUND`.
    pub fn set_vec3(&self, name: &str, x: u32, y: u32, z: u32) -> (r: DeviceCall)
        ensures
            r matches DeviceCall::WriteVec3 { location, x: rx, y: ry, z: rz }
                && location as int == resolve(self@.uniforms, name@)
                && rx == x && ry == y && rz == z,
    {
        DeviceCall::WriteVec3 { location: self.location(name), x, y, z }
    }

    /// The write of a 4x4 matrix to the uniform `name`, its sixteen
    /// components unchanged and in the order given. Where `name` is no active
    /// uniform the write goes to `NOT_FOUND`.
    pub fn set_mat4(&self, name: &str, values: [u32; 16]) -> (r: DeviceCall)
        ensures
            r matches DeviceCall::WriteMat4 { location, values: written }
                && location as int == resolve(self@.uniforms, name@)
                && written == values,
    {
        DeviceCall::WriteMat4 { location: self.location(name), values }
    }
}

/// What the host reports back to a build: the outcome of the step it was asked for.
#[derive(Clone, Debug, PartialEq, Eq)]
pub enum BuildReport {
    Stage(StageReport),
    Link(LinkReport),
}

/// What a build asks of the host next.
#[derive(Clone, Copy, Debug, PartialEq, Eq, Structural)]
pub enum BuildStep {
    /// Compile the source of this stage and report the outcome.
    CompileStage { stage: Stage },
    /// Link the two compiled stages and report the outcome.
    Link { vertex: u32, fragment: u32 },
    /// Nothing more: the build has its outcome.
    Finished,
}

#[derive(Clone, Debug)]
enum Progress {
    AwaitVertex,
    AwaitFragment { vertex: u32 },
    AwaitLink { vertex: u32, fragment: u32 },
    Ready { program: ShaderProgram },
    Failed { error: ShaderError },
}

/// A build in progress: the vertex stage is compiled first, then the
/// fragment stage, then the two are linked. The first failure ends it.
#[derive(Clone, Debug)]
pub struct ShaderBuild {
    progress: Progress,
}

/// What a build is, to its contracts.
pub enum BuildView {
    AwaitVertex,
    AwaitFragment { vertex: u32 },
    AwaitLink { vertex: u32, fragment: u32 },
    Ready { program: ProgramView },
    Failed { error: ShaderError },
}

/// The step that a build in this state asks for.
pub open spec fn step_of(state: BuildView) -> BuildStep {
    match state {
        BuildView::AwaitVertex => BuildStep::CompileStage { stage: Stage::Vertex },
        BuildView::AwaitFragment { .. } => BuildStep::CompileStage { stage: Stage::Fragment },
        BuildView::AwaitLink { vertex, fragment } => BuildStep::Link { vertex, fragment },
        BuildView::Ready { .. } => BuildStep::Finished,
        BuildView::Failed { .. } => BuildStep::Finished,
    }
}

/// The state after a report. A report that answers no step the build asked
/// for leaves the build as it is.
pub open spec fn after_report(state: BuildView, report: BuildReport) -> BuildView {
    match (state, report) {
        (BuildView::AwaitVertex, BuildReport::Stage(r)) => if r.compiled {
            BuildView::AwaitFragment { vertex: r.handle }
        } else {
            BuildView::Failed { error: ShaderError::Compile { stage: Stage::Vertex, log: r.log } }
        },
        (BuildView::AwaitFragment { vertex }, BuildReport::Stage(r)) => if r.compiled {
            BuildView::AwaitLink { vertex, fragment: r.handle }
        } else {
            BuildView::Failed { error: ShaderError::Compile { stage: Stage::Fragment, log: r.log } }
        },
        (BuildView::AwaitLink { .. }, BuildReport::Link(r)) => if r.linked {
            BuildView::Ready {
                program: ProgramView { handle: r.handle, uniforms: slot_views(r.uniforms@) },
            }
        } else {
            BuildView::Failed { error: ShaderError::Link { log: r.log } }
        },
        _ => state,
    }
}

impl View for ShaderBuild {
    type V = BuildView;

    closed spec fn view(&self) -> BuildView {
        match self.progress {
            Progress::AwaitVertex => BuildView::AwaitVertex,
            Progress::AwaitFragment { vertex } => BuildView::AwaitFragment { vertex },
            Progress::AwaitLink { vertex, fragment } => BuildView::AwaitLink { vertex, fragment },
            Progress::Ready { program } => BuildView::Ready { program: program@ },
            Progress::Failed { error } => BuildView::Failed { error },
        }
    }
}

impl ShaderBuild {
    /// A build that has asked for nothing yet.
    pub fn start() -> (r: ShaderBuild)
        ensures
            r@ == BuildView::AwaitVertex,
    {
        ShaderBuild { progress: Progress::AwaitVertex }
    }

    /// What the host is to do next.
    pub fn next_step(&self) -> (r: BuildStep)
        ensures
            r == step_of(self@),
    {
        match &self.progress {
            Progress::AwaitVertex => BuildStep::CompileStage { stage: Stage::Vertex },
            Progress::AwaitFragment { .. } => BuildStep::CompileStage { stage: Stage::Fragment },
            Progress::AwaitLink { vertex, fragment } => BuildStep::Link {
                vertex: *vertex,
                fragment: *fragment,
            },
            Progress::Ready { .. } => BuildStep::Finished,
            Progress::Failed { .. } => BuildStep::Finished,
        }
    }

    /// Takes the host's report and moves the build on.
    pub fn advance(self, report: BuildReport) -> (r: ShaderBuild)
        ensures
            r@ == after_report(self@, report),
    {
        let progress = match self.progress {
            Progress::AwaitVertex => match report {
                BuildReport::Stage(r) => match ShaderProgram::check_stage(Stage::Vertex, r) {
                    Ok(vertex) => Progress::AwaitFragment { vertex },
                    Err(error) => Progress::Failed { error },
                },
                BuildReport::Link(_) => Progress::AwaitVertex,
            },
            Progress::AwaitFragment { vertex } => match report {
                BuildReport::Stage(r) => match ShaderProgram::check_stage(Stage::Fragment, r) {
                    Ok(fragment) => Progress::AwaitLink { vertex, fragment },
                    Err(error) => Progress::Failed { error },
                },
                BuildReport::Link(_) => Progress::AwaitFragment { vertex },
            },
            Progress::AwaitLink { vertex, fragment } => match report {
                BuildReport::Link(r) => match ShaderProgram::check_link(r) {
                    Ok(program) => Progress::Ready { program },
                    Err(error) => Progress::Failed { error },
                },
                BuildReport::Stage(_) => Progress::AwaitLink { vertex, fragment },
            },
            Progress::Ready { program } => Progress::Ready { program },
            Progress::Failed { error } => Progress::Failed { error },
        };
        ShaderBuild { progress }
    }

    /// The outcome of a finished build: the program or the error. A build
    /// that still asks for a step has none.
    pub fn finish(self) -> (r: Option<Result<ShaderProgram, ShaderError>>)
        ensures
            match self@ {
                BuildView::Ready { program } => r matches Some(Ok(p)) && p@ == program,
                BuildView::Failed { error } => r == Some(
                    Err::<ShaderProgram, ShaderError>(error),
                ),
                _ => r is None,
            },
    {
        match self.progress {
            Progress::Ready { program } => Some(Ok(program)),
            Progress::Failed { error } => Some(Err(error)),
            _ => None,
        }
    }
}

/// A build that is given the report of the vertex stage, then that of the
/// fragment stage, then that of the link, ends failed with the error of the
/// first step that failed, or ready with the linked program. After a failed
/// step the later reports change nothing.
pub proof fn lemma_build_follows_the_reports(
    vertex: StageReport,
    fragment: StageReport,
    link: LinkReport,
)
    ensures
        after_report(
            after_report(
                after_report(BuildView::AwaitVertex, BuildReport::Stage(vertex)),
                BuildReport::Stage(fragment),
            ),
            BuildReport::Link(link),
        ) == (match build_error(vertex, fragment, link) {
            Some(error) => BuildView::Failed { error },
            None => BuildView::Ready {
                program: ProgramView { handle: link.handle, uniforms: slot_views(link.uniforms@) },
            },
        }),
{
}

/// A build asks for a step until it is ready or failed, and from then on no
/// report changes it.
pub proof fn lemma_finished_build_stays(state: BuildView, report: BuildReport)
    ensures
        step_of(state) == BuildStep::Finished <==> (state is Ready || state is Failed),
        step_of(state) == BuildStep::Finished ==> after_report(state, report) == state,
{
}

/// A name that resolves to a location is an active uniform, and the location
/// is listed with it; a name that resolves to `NOT_FOUND` is not active.
pub proof fn lemma_resolve_from(uniforms: Seq<(Seq<char>, int)>, name: Seq<char>, from: int)
    requires
        0 <= from,
    ensures
        resolve_from(uniforms, name, from) >= 0 ==> exists|i: int|
            from <= i < uniforms.len() && #[trigger] uniforms[i] == (
                name,
                resolve_from(uniforms, name, from),
            ),
        resolve_from(uniforms, name, from) < 0 ==> resolve_from(uniforms, name, from) == NOT_FOUND
            && forall|i: int|
            from <= i < uniforms.len() ==> !((#[trigger] uniforms[i]).0 == name && uniforms[i].1
                >= 0),
    decreases uniforms.len() - from,
{
    if from < uniforms.len() {
        if uniforms[from].0 == name && uniforms[from].1 >= 0 {
            assert(uniforms[from] == (name, resolve_from(uniforms, name, from)));
        } else {
            lemma_resolve_from(uniforms, name, from + 1);
        }
    }
}

/// A name resolves to `NOT_FOUND` exactly when it is no active uniform.
pub proof fn lemma_not_found_iff_inactive(uniforms: Seq<(Seq<char>, int)>, name: Seq<char>)
    ensures
        resolve(uniforms, name) == NOT_FOUND <==> !is_active(uniforms, name),
        resolve(uniforms, name) >= NOT_FOUND,
{
    lemma_resolve_from(uniforms, name, 0);
}

/// A write to a name that is no active uniform goes to `NOT_FOUND`, which is
/// the location of no active uniform: it reaches no other uniform's value.
pub proof fn lemma_unknown_uniform_reaches_none(
    uniforms: Seq<(Seq<char>, int)>,
    name: Seq<char>,
    other: Seq<char>,
)
    requires
        !is_active(uniforms, name),
        is_active(uniforms, other),
    ensures
        resolve(uniforms, name) == NOT_FOUND,
        resolve(uniforms, other) >= 0,
        resolve(uniforms, other) != resolve(uniforms, name),
{
    lemma_not_found_iff_inactive(uniforms, name);
    lemma_not_found_iff_inactive(uniforms, other);
}

/// Every diagnostic message begins with the word "error", is longer than
/// that word, and ends with the device's log.
pub proof fn lemma_message_names_error(error: ShaderError)
    ensures
        message_of(error).len() > 5,
        message_of(error).subrange(0, 5) == "error"@,
        message_of(error).skip(headline(error).len() as int) == log_of(error),
{
    reveal_strlit("error");
    reveal_strlit("error: vertex stage failed to compile: ");
    reveal_strlit("error: fragment stage failed to compile: ");
    reveal_strlit("error: program failed to link: ");
    assert(message_of(error).subrange(0, 5) =~= "error"@);
    assert(message_of(error).skip(headline(error).len() as int) =~= log_of(error));
}

/// A build has an error exactly when a stage failed to compile or the link
/// failed, and the message of that error is never empty.
pub proof fn lemma_failed_step_gives_error(
    vertex: StageReport,
    fragment: StageReport,
    link: LinkReport,
)
    ensures
        build_error(vertex, fragment, link) is Some <==> !(vertex.compiled && fragment.compiled
            && link.linked),
        build_error(vertex, fragment, link) matches Some(e) ==> message_of(e).len() > 5,
{
    match build_error(vertex, fragment, link) {
        Some(e) => lemma_message_names_error(e),
        None => {},
    }
}

} // verus!
