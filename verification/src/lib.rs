//! Orchestration core for a procedural render pipeline: a serialized job
//! queue, a job-to-command translation layer, an execution plan with a
//! strict on-disk ordering, and the per-frame progress protocol spoken by
//! the external rendering engine.
//!
//! Everything that performs I/O — spawning the engine, draining its
//! streams, talking to the persistence collaborator — lives outside this
//! crate and interprets the plans, actions and parses produced here.

use vstd::prelude::*;
use vstd::string::StringExecFns;

use crate::codec::base64_of;
use crate::shader::{KaleidoArgs, KaleidoArgsView};
use crate::strutil::{join_path, spec_decimal, spec_join, u64_to_string};

pub mod codec;
pub mod exec;
pub mod listener;
pub mod progress;
pub mod publisher;
pub mod queue;
pub mod shader;
pub mod strutil;

verus! {

/// One progress record emitted by the running engine: which job, and
/// which frame has just been completed.
pub struct RenderStatus {
    pub id: String,
    pub frame: i32,
}

/// Spec-level image of a RenderJobDirectories.
pub struct RenderJobDirectoriesView {
    pub directory: Seq<char>,
    pub id: Seq<char>,
}

/// The fixed on-disk layout of one job: every path the pipeline touches
/// for it, derived purely from the output root and the job identifier.
pub struct RenderJobDirectories {
    directory: String,
    id: String,
}

impl View for RenderJobDirectories {
    type V = RenderJobDirectoriesView;

    closed spec fn view(&self) -> RenderJobDirectoriesView {
        RenderJobDirectoriesView { directory: self.directory@, id: self.id@ }
    }
}

/// The job's private directory under the output root.
pub open spec fn spec_project_folder(dir: Seq<char>, id: Seq<char>) -> Seq<char> {
    spec_join(dir, id)
}

/// The job's parameters file, written before the engine is spawned.
pub open spec fn spec_parameters_path(dir: Seq<char>, id: Seq<char>) -> Seq<char> {
    spec_join(spec_project_folder(dir, id), "parameters.json"@)
}

/// The log file capturing the engine's standard output.
pub open spec fn spec_stdout_log_path(dir: Seq<char>, id: Seq<char>) -> Seq<char> {
    spec_join(spec_project_folder(dir, id), "stdout.log"@)
}

/// The log file capturing the engine's standard error.
pub open spec fn spec_stderr_log_path(dir: Seq<char>, id: Seq<char>) -> Seq<char> {
    spec_join(spec_project_folder(dir, id), "stderr.log"@)
}

/// The engine's native log file, whose path is handed to the subprocess.
pub open spec fn spec_native_log_path(dir: Seq<char>, id: Seq<char>) -> Seq<char> {
    spec_join(spec_project_folder(dir, id), "engine.log"@)
}

/// The copy of the project template placed inside the job directory.
pub open spec fn spec_project_file_path(dir: Seq<char>, id: Seq<char>) -> Seq<char> {
    spec_join(spec_project_folder(dir, id), "project.blend"@)
}

/// The naming pattern for rendered frames; the engine substitutes the
/// frame number for the `#` placeholders.
pub open spec fn spec_frame_pattern(dir: Seq<char>, id: Seq<char>) -> Seq<char> {
    spec_join(spec_project_folder(dir, id), "frame_#####"@)
}

impl RenderJobDirectories {
    /// The layout for one job under one output root.
    pub fn new(id: String, dir: String) -> (r: Self)
        ensures
            r@.id == id@,
            r@.directory == dir@,
    {
        RenderJobDirectories { id, directory: dir }
    }

    /// The configured output root.
    pub fn output_dir(&self) -> (r: String)
        ensures
            r@ == self@.directory,
    {
        self.directory.clone()
    }

    /// The identifier of the job this layout belongs to.
    pub fn get_id(&self) -> (r: String)
        ensures
            r@ == self@.id,
    {
        self.id.clone()
    }

    /// The job's private directory.
    pub fn project_folder_path(&self) -> (r: String)
        ensures
            r@ == spec_project_folder(self@.directory, self@.id),
    {
        join_path(self.directory.as_str(), self.id.as_str())
    }

    /// Where the engine's standard output is captured.
    pub fn blender_stdout_path(&self) -> (r: String)
        ensures
            r@ == spec_stdout_log_path(self@.directory, self@.id),
    {
        let folder = self.project_folder_path();
        join_path(folder.as_str(), "stdout.log")
    }

    /// Where the engine's standard error is captured.
    pub fn blender_stderr_path(&self) -> (r: String)
        ensures
            r@ == spec_stderr_log_path(self@.directory, self@.id),
    {
        let folder = self.project_folder_path();
        join_path(folder.as_str(), "stderr.log")
    }

    /// Where the job's parameters are written before the render begins.
    pub fn parameters_path(&self) -> (r: String)
        ensures
            r@ == spec_parameters_path(self@.directory, self@.id),
    {
        let folder = self.project_folder_path();
        join_path(folder.as_str(), "parameters.json")
    }

    /// Where the job's copy of the project template would live.
    pub fn blender_project_path(&self) -> (r: String)
        ensures
            r@ == spec_project_file_path(self@.directory, self@.id),
    {
        let folder = self.project_folder_path();
        join_path(folder.as_str(), "project.blend")
    }

    /// The frame-output naming pattern handed to the engine.
    pub fn blender_frame_path(&self) -> (r: String)
        ensures
            r@ == spec_frame_pattern(self@.directory, self@.id),
    {
        let folder = self.project_folder_path();
        join_path(folder.as_str(), "frame_#####")
    }

    /// The engine's own log file.
    pub fn blender_native_log_path(&self) -> (r: String)
        ensures
            r@ == spec_native_log_path(self@.directory, self@.id),
    {
        let folder = self.project_folder_path();
        join_path(folder.as_str(), "engine.log")
    }
}

/// The outcome of one render: whether the engine exited successfully,
/// and where its output lives.
pub struct KaleidoOutput {
    pub exit_success: bool,
    pub output_directory: String,
}

impl KaleidoOutput {
    /// Records the exit of one render.
    pub fn new(status: bool, directory: String) -> (r: Self)
        ensures
            r.exit_success == status,
            r.output_directory@ == directory@,
    {
        KaleidoOutput { exit_success: status, output_directory: directory }
    }
}

/// Spec-level image of a CommandType.
pub enum CommandTypeView {
    Animated(int, int, KaleidoArgsView),
    Still(int, KaleidoArgsView),
}

/// The execution mode requested for one job: a frame range, or a single
/// still frame rendered as a one-frame range.
pub enum CommandType {
    /// An animated output over the frame range `(start_frame, end_frame)`.
    Animated(usize, usize, KaleidoArgs),
    /// A still image of a single frame.
    Still(usize, KaleidoArgs),
}

impl View for CommandType {
    type V = CommandTypeView;

    open spec fn view(&self) -> CommandTypeView {
        match self {
            CommandType::Animated(s, e, job) => CommandTypeView::Animated(
                *s as int,
                *e as int,
                job@,
            ),
            CommandType::Still(f, job) => CommandTypeView::Still(*f as int, job@),
        }
    }
}

/// The job a command executes.
pub open spec fn spec_command_job(c: CommandTypeView) -> KaleidoArgsView {
    match c {
        CommandTypeView::Animated(_, _, job) => job,
        CommandTypeView::Still(_, job) => job,
    }
}

/// The first frame the engine is asked for.
pub open spec fn spec_command_start(c: CommandTypeView) -> int {
    match c {
        CommandTypeView::Animated(s, _, _) => s,
        CommandTypeView::Still(f, _) => f,
    }
}

/// The last frame the engine is asked for; a still is the one-frame
/// special case of the animated path.
pub open spec fn spec_command_end(c: CommandTypeView) -> int {
    match c {
        CommandTypeView::Animated(_, e, _) => e,
        CommandTypeView::Still(f, _) => f,
    }
}

impl CommandType {
    /// The identifier of the job this command executes.
    pub fn get_job_id(&self) -> (r: String)
        ensures
            r@ == spec_command_job(self@).id,
    {
        match self {
            CommandType::Animated(_, _, job) => job.get_id(),
            CommandType::Still(_, job) => job.get_id(),
        }
    }

    /// The job record this command executes.
    pub fn project_args(&self) -> (r: KaleidoArgs)
        ensures
            r@ == spec_command_job(self@),
    {
        match self {
            CommandType::Animated(_, _, job) => job.clone_args(),
            CommandType::Still(_, job) => job.clone_args(),
        }
    }
}

/// Spec-level image of a PlanStep.
pub enum PlanStepView {
    CreateDir(Seq<char>),
    WriteFile(Seq<char>, Seq<char>),
    Spawn(Seq<char>, Seq<Seq<char>>),
}

/// One effect the pipeline asks its unverified surroundings to perform,
/// in the order the plan lists them.
pub enum PlanStep {
    /// Create the directory at the given path; failure, including a
    /// collision, is fatal to the job.
    CreateDir(String),
    /// Write the given contents to a fresh file at the given path.
    WriteFile(String, String),
    /// Spawn the given program with the given arguments and await it.
    Spawn(String, Vec<String>),
}

impl View for PlanStep {
    type V = PlanStepView;

    open spec fn view(&self) -> PlanStepView {
        match self {
            PlanStep::CreateDir(p) => PlanStepView::CreateDir(p@),
            PlanStep::WriteFile(p, c) => PlanStepView::WriteFile(p@, c@),
            PlanStep::Spawn(prog, args) => PlanStepView::Spawn(
                prog@,
                args@.map_values(|a: String| a@),
            ),
        }
    }
}

/// The ordered effects that execute one render command.
pub struct RenderPlan {
    pub steps: Vec<PlanStep>,
}

impl View for RenderPlan {
    type V = Seq<PlanStepView>;

    open spec fn view(&self) -> Seq<PlanStepView> {
        self.steps@.map_values(|s: PlanStep| s@)
    }
}

/// The invocation of the external renderer: the project template, the
/// engine log, the frame range, the output pattern, the loader script,
/// and the base64 parameter payload as the trailing positional argument.
pub open spec fn spec_engine_args(
    project: Seq<char>,
    loader: Seq<char>,
    dir: Seq<char>,
    id: Seq<char>,
    start: nat,
    end: nat,
    payload: Seq<char>,
) -> Seq<Seq<char>> {
    seq![
        project,
        "--factory-startup"@,
        "--log-file"@,
        spec_native_log_path(dir, id),
        "-s"@,
        spec_decimal(start),
        "-e"@,
        spec_decimal(end),
        "-o"@,
        spec_frame_pattern(dir, id),
        "-Y"@,
        "-P"@,
        loader,
        "-f"@,
        "0"@,
        "-b"@,
        "-a"@,
        "--"@,
        payload,
    ]
}

/// The full plan for one command: create the job directory, write the
/// parameters file, then spawn the engine.
pub open spec fn spec_render_plan(
    root: Seq<char>,
    engine: Seq<char>,
    project: Seq<char>,
    loader: Seq<char>,
    c: CommandTypeView,
) -> Seq<PlanStepView> {
    let job = spec_command_job(c);
    seq![
        PlanStepView::CreateDir(spec_project_folder(root, job.id)),
        PlanStepView::WriteFile(spec_parameters_path(root, job.id), job.params),
        PlanStepView::Spawn(
            engine,
            spec_engine_args(
                project,
                loader,
                root,
                job.id,
                spec_command_start(c) as nat,
                spec_command_end(c) as nat,
                base64_of(job.params),
            ),
        ),
    ]
}

/// The executor: turns an abstract render command into the concrete
/// effects that execute it under this output root.
pub struct Tarascope {
    directory: String,
}

impl Tarascope {
    /// An executor writing its jobs under the given output root.
    pub fn new(directory: String) -> (r: Self)
        ensures
            r.spec_directory() == directory@,
    {
        Tarascope { directory }
    }

    /// The configured output root.
    pub closed spec fn spec_directory(&self) -> Seq<char> {
        self.directory@
    }

    /// The on-disk layout of one job under this executor's root.
    pub fn paths_for_job(&self, job_id: &String) -> (r: RenderJobDirectories)
        ensures
            r@.directory == self.spec_directory(),
            r@.id == job_id@,
    {
        RenderJobDirectories { directory: self.directory.clone(), id: job_id.clone() }
    }

    /// The ordered effects that execute `c`: create the job directory,
    /// write the job's parameters file inside it, then spawn the engine
    /// on the given support files with the job's parameters appended as
    /// a base64 payload.
    pub fn render_plan(&self, c: &CommandType, engine: &str, project: &str, loader: &str) -> (plan:
        RenderPlan)
        requires
            spec_command_job(c@).params.len() < usize::MAX as int / 16,
        ensures
            plan@ == spec_render_plan(
                self.spec_directory(),
                engine@,
                project@,
                loader@,
                c@,
            ),
    {
        let args = c.project_args();
        let id = args.get_id();
        let dirs = self.paths_for_job(&id);

        let folder = dirs.project_folder_path();
        let params_path = dirs.parameters_path();
        let encoded = args.base64();

        let (start, end) = match c {
            CommandType::Animated(s, e, _) => (*s, *e),
            CommandType::Still(f, _) => (*f, *f),
        };

        let mut argv: Vec<String> = Vec::new();
        argv.push(String::from_str(project));
        argv.push(String::from_str("--factory-startup"));
        argv.push(String::from_str("--log-file"));
        argv.push(dirs.blender_native_log_path());
        argv.push(String::from_str("-s"));
        argv.push(u64_to_string(start as u64));
        argv.push(String::from_str("-e"));
        argv.push(u64_to_string(end as u64));
        argv.push(String::from_str("-o"));
        argv.push(dirs.blender_frame_path());
        argv.push(String::from_str("-Y"));
        argv.push(String::from_str("-P"));
        argv.push(String::from_str(loader));
        argv.push(String::from_str("-f"));
        argv.push(String::from_str("0"));
        argv.push(String::from_str("-b"));
        argv.push(String::from_str("-a"));
        argv.push(String::from_str("--"));
        argv.push(encoded);

        let spawn = PlanStep::Spawn(String::from_str(engine), argv);

        let mut steps: Vec<PlanStep> = Vec::new();
        steps.push(PlanStep::CreateDir(folder));
        steps.push(PlanStep::WriteFile(params_path, args.into_parameters_text()));
        steps.push(spawn);

        let plan = RenderPlan { steps };
        proof {
            assert(plan@ =~= spec_render_plan(
                self.spec_directory(),
                engine@,
                project@,
                loader@,
                c@,
            )) by {
                assert(plan@[2]->Spawn_1 =~~= spec_render_plan(
                    self.spec_directory(),
                    engine@,
                    project@,
                    loader@,
                    c@,
                )[2]->Spawn_1);
            }
        }
        plan
    }
}

/// For every command, the job directory is created exactly once, as the
/// plan's first effect: strictly before the parameters file — which lies
/// inside that directory — is written, and strictly before the engine,
/// which produces the frame outputs, is spawned.
pub proof fn lemma_directory_created_once_and_first(
    root: Seq<char>,
    engine: Seq<char>,
    project: Seq<char>,
    loader: Seq<char>,
    c: CommandTypeView,
)
    ensures
        ({
            let p = spec_render_plan(root, engine, project, loader, c);
            let folder = spec_project_folder(root, spec_command_job(c).id);
            &&& p.len() == 3
            &&& forall|i: int| 0 <= i < p.len() ==> ((p[i] is CreateDir) <==> i == 0)
            &&& p[0] == PlanStepView::CreateDir(folder)
            &&& forall|i: int|
                0 <= i < p.len() && (p[i] is WriteFile || p[i] is Spawn) ==> 0 < i
            &&& p[1] matches PlanStepView::WriteFile(path, _) && folder.is_prefix_of(path)
        }),
{
    let p = spec_render_plan(root, engine, project, loader, c);
    let folder = spec_project_folder(root, spec_command_job(c).id);
    assert(spec_parameters_path(root, spec_command_job(c).id) =~= folder + seq!['/']
        + "parameters.json"@);
    assert(folder.is_prefix_of(spec_parameters_path(root, spec_command_job(c).id)));
    assert(forall|i: int| 0 <= i < p.len() ==> ((p[i] is CreateDir) <==> i == 0)) by {
        assert(p[0] is CreateDir);
        assert(p[1] is WriteFile);
        assert(p[2] is Spawn);
    }
}

} // verus!
