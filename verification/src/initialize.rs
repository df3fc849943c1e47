//! The set-up that runs once before watching starts.
//!
//! The set-up is a fixed sequence of stages. The tools are checked, the
//! programs are mapped, a local test validator is started, the project is
//! built once where it never was, and then every program found in the build
//! output has its id brought up to date, is built and is deployed. Only a
//! failed check of the tools ends the set-up early: every later failure is
//! reported and the set-up goes on.
//!
//! The library decides what comes next; the host does the work and reports
//! how it went.

use crate::constants::extension;
use crate::framework::{Framework, Task, TaskView};
use crate::framework_utils::{deploy_dir, spec_deploy_dir, spec_program_path, Programs};
use crate::list::{push_unique, spec_push_unique};
use crate::path::{extension as path_extension, spec_extension};
use crate::progress::{Progress, ProgressView};
use crate::text::str_eq;
use vstd::prelude::*;
use vstd::string::*;

verus! {

/// A stage of the set-up that the user is told about.
#[derive(Clone, Copy, Debug, PartialEq, Eq, Structural)]
pub enum Stage {
    /// The required tools are looked for.
    CheckToolset,
    /// The programs of the project are mapped to their paths.
    MapProgramNames,
    /// A local test validator is started.
    StartValidator,
    /// The project is built for the first time.
    Setup,
    /// The declared program ids are brought in line with the keypairs.
    UpdateProgramIds,
    /// The programs are built.
    Build,
    /// The programs are deployed.
    Deploy,
}

/// Where the set-up stands.
#[derive(Clone, Copy, Debug, PartialEq, Eq, Structural)]
pub enum Phase {
    /// Nothing was asked for yet.
    Start,
    /// The tools are being checked.
    CheckToolset,
    /// The programs are being mapped.
    MapProgramNames,
    /// The test validator is being started.
    StartValidator,
    /// The build output directory is being looked for.
    ProbeDeployDir,
    /// The project is being built for the first time.
    Setup,
    /// The build output directory is being read.
    ReadDeployDir,
    /// The update of the program ids was announced.
    BeginUpdateProgramIds,
    /// The program ids are being updated.
    UpdateProgramIds,
    /// The builds were announced.
    BeginBuild,
    /// The programs are being built.
    Build,
    /// The deployments were announced.
    BeginDeploy,
    /// The programs are being deployed.
    Deploy,
    /// The set-up is over.
    Finished,
    /// The set-up was given up because no required tool is installed.
    Aborted,
}

/// What the host is asked to do next.
#[derive(Debug)]
pub enum InitTask {
    /// Look for the framework's tools and hand the findings to its
    /// `check_toolset`.
    CheckToolset,
    /// Find the programs of the project and enter them in the framework.
    MapProgramNames,
    /// Start a local test validator for this project directory in the
    /// background and wait a moment; whether it came up is not known.
    StartValidator(String),
    /// Tell whether this directory exists.
    ProbeDeployDir(String),
    /// Build the whole project at this path and wait for the build.
    Setup(String),
    /// List the paths of the files in this directory.
    ReadDeployDir(String),
    /// Announce a stage over this many items.
    Begin(Stage, usize),
    /// Carry out what it names and wait for its end.
    Run(Task),
}

/// An `InitTask` as the library reasons about it.
pub enum InitTaskView {
    /// Check the tools.
    CheckToolset,
    /// Map the programs.
    MapProgramNames,
    /// Start a test validator in a directory.
    StartValidator(Seq<char>),
    /// Tell whether a directory exists.
    ProbeDeployDir(Seq<char>),
    /// Build the project at a path.
    Setup(Seq<char>),
    /// List a directory.
    ReadDeployDir(Seq<char>),
    /// Announce a stage over a number of items.
    Begin(Stage, nat),
    /// Run a task.
    Run(TaskView),
}

impl View for InitTask {
    type V = InitTaskView;

    open spec fn view(&self) -> InitTaskView {
        match self {
            InitTask::CheckToolset => InitTaskView::CheckToolset,
            InitTask::MapProgramNames => InitTaskView::MapProgramNames,
            InitTask::StartValidator(origin) => InitTaskView::StartValidator(origin@),
            InitTask::ProbeDeployDir(path) => InitTaskView::ProbeDeployDir(path@),
            InitTask::Setup(origin) => InitTaskView::Setup(origin@),
            InitTask::ReadDeployDir(path) => InitTaskView::ReadDeployDir(path@),
            InitTask::Begin(stage, len) => InitTaskView::Begin(*stage, *len as nat),
            InitTask::Run(task) => InitTaskView::Run(task@),
        }
    }
}

impl DeepView for InitTask {
    type V = InitTaskView;

    open spec fn deep_view(&self) -> InitTaskView {
        self@
    }
}

/// What the host reports of the task it was asked to do.
#[derive(Debug)]
pub enum Report {
    /// The task was done; `true` where it succeeded.
    Done(bool),
    /// Whether the directory asked about exists.
    Exists(bool),
    /// The paths found in the directory that was to be listed.
    Entries(Vec<String>),
}

/// A `Report` as the library reasons about it.
pub enum ReportView {
    /// The task was done; `true` where it succeeded.
    Done(bool),
    /// Whether the directory exists.
    Exists(bool),
    /// The paths found.
    Entries(Seq<Seq<char>>),
}

impl View for Report {
    type V = ReportView;

    open spec fn view(&self) -> ReportView {
        match self {
            Report::Done(success) => ReportView::Done(*success),
            Report::Exists(exists) => ReportView::Exists(*exists),
            Report::Entries(entries) => ReportView::Entries(entries.deep_view()),
        }
    }
}

/// How a stage ended.
#[derive(Clone, Copy, Debug, PartialEq, Eq, Structural)]
pub struct StageEnd {
    /// The stage that is over.
    pub stage: Stage,
    /// Whether all of it succeeded.
    pub success: bool,
}

/// What one step of the set-up yields.
#[derive(Debug)]
pub struct InitStep {
    /// The stage that the reported task ended, if it ended one.
    pub ended: Option<StageEnd>,
    /// What to do next; nothing where the set-up is over.
    pub next: Option<InitTask>,
}

/// An `InitStep` as the library reasons about it.
pub struct InitStepView {
    /// The stage that ended, if any.
    pub ended: Option<StageEnd>,
    /// What to do next.
    pub next: Option<InitTaskView>,
}

impl View for InitStep {
    type V = InitStepView;

    open spec fn view(&self) -> InitStepView {
        InitStepView { ended: self.ended, next: self.next.deep_view() }
    }
}

/// The state of a set-up as the library reasons about it.
pub struct InitView {
    /// Where the set-up stands.
    pub phase: Phase,
    /// The root directory of the project.
    pub origin: Seq<char>,
    /// The keypairs found in the build output.
    pub keypair_paths: Seq<Seq<char>>,
    /// The compiled programs found in the build output.
    pub elf_paths: Seq<Seq<char>>,
    /// The programs to build, each once.
    pub build_paths: Seq<Seq<char>>,
    /// How many items of the current stage are done.
    pub index: nat,
    /// Whether an item of the current stage failed.
    pub failed: bool,
}

/// The state of a set-up.
#[derive(Debug)]
pub struct Initialization {
    phase: Phase,
    origin: String,
    keypair_paths: Vec<String>,
    elf_paths: Vec<String>,
    build_paths: Vec<String>,
    index: usize,
    failed: bool,
}

impl View for Initialization {
    type V = InitView;

    closed spec fn view(&self) -> InitView {
        InitView {
            phase: self.phase,
            origin: self.origin@,
            keypair_paths: self.keypair_paths.deep_view(),
            elf_paths: self.elf_paths.deep_view(),
            build_paths: self.build_paths.deep_view(),
            index: self.index as nat,
            failed: self.failed,
        }
    }
}

/// Whether `report` tells of a success.
pub open spec fn spec_succeeded(report: ReportView) -> bool {
    report == ReportView::Done(true)
}

/// The paths among `entries` whose extension is `ext`, in order.
pub open spec fn spec_with_extension(entries: Seq<Seq<char>>, ext: Seq<char>) -> Seq<Seq<char>>
    decreases entries.len(),
{
    if entries.len() == 0 {
        Seq::empty()
    } else {
        let before = spec_with_extension(entries.drop_last(), ext);
        if spec_extension(entries.last()) == Some(ext) {
            before.push(entries.last())
        } else {
            before
        }
    }
}

/// `found` with the programs that `paths` belong to added in order, each
/// once. Paths of no known program add nothing.
pub open spec fn spec_add_programs(
    programs: Programs,
    found: Seq<Seq<char>>,
    paths: Seq<Seq<char>>,
) -> Seq<Seq<char>>
    decreases paths.len(),
{
    if paths.len() == 0 {
        found
    } else {
        let before = spec_add_programs(programs, found, paths.drop_last());
        match spec_program_path(programs, paths.last()) {
            Some(program_path) => spec_push_unique(before, program_path),
            None => before,
        }
    }
}

/// The programs to build for the keypairs and compiled programs found in the
/// build output: those that the keypairs belong to, then those that the
/// compiled programs belong to, each once.
pub open spec fn spec_build_paths(
    programs: Programs,
    keypair_paths: Seq<Seq<char>>,
    elf_paths: Seq<Seq<char>>,
) -> Seq<Seq<char>> {
    spec_add_programs(
        programs,
        spec_add_programs(programs, Seq::empty(), keypair_paths),
        elf_paths,
    )
}

/// The state in which nothing was asked for yet.
pub open spec fn spec_initial(origin: Seq<char>) -> InitView {
    InitView {
        phase: Phase::Start,
        origin,
        keypair_paths: Seq::empty(),
        elf_paths: Seq::empty(),
        build_paths: Seq::empty(),
        index: 0,
        failed: false,
    }
}

/// The items of the stage that `phase` works on.
pub open spec fn spec_items(state: InitView) -> Seq<TaskView> {
    match state.phase {
        Phase::UpdateProgramIds => Seq::new(
            state.keypair_paths.len(),
            |i: int| TaskView::UpdateProgramId(state.keypair_paths[i]),
        ),
        Phase::Build => Seq::new(
            state.build_paths.len(),
            |i: int| TaskView::Build(state.build_paths[i]),
        ),
        Phase::Deploy => Seq::new(
            state.elf_paths.len(),
            |i: int| TaskView::Deploy(state.elf_paths[i]),
        ),
        _ => Seq::empty(),
    }
}

/// The stage of a phase that works through items.
pub open spec fn spec_stage(phase: Phase) -> Stage {
    match phase {
        Phase::UpdateProgramIds => Stage::UpdateProgramIds,
        Phase::Build => Stage::Build,
        _ => Stage::Deploy,
    }
}

/// The state and the step that announce the stage of `phase`, one of the
/// phases that work through items.
pub open spec fn spec_begin(state: InitView, ended: Option<StageEnd>, phase: Phase) -> (
    InitView,
    InitStepView,
) {
    let announced = match phase {
        Phase::UpdateProgramIds => Phase::BeginUpdateProgramIds,
        Phase::Build => Phase::BeginBuild,
        _ => Phase::BeginDeploy,
    };
    let items = spec_items(InitView { phase, ..state });
    (
        InitView { phase: announced, index: 0, failed: false, ..state },
        InitStepView {
            ended,
            next: Some(InitTaskView::Begin(spec_stage(phase), items.len())),
        },
    )
}

/// The state and the step after a stage that works through items is over.
pub open spec fn spec_after(state: InitView, ended: Option<StageEnd>) -> (InitView, InitStepView) {
    match state.phase {
        Phase::UpdateProgramIds => spec_begin(state, ended, Phase::Build),
        Phase::Build => spec_begin(state, ended, Phase::Deploy),
        _ => (
            InitView { phase: Phase::Finished, index: 0, failed: false, ..state },
            InitStepView { ended, next: None },
        ),
    }
}

/// The state and the step in a stage that works through items, `index` of
/// which are done: the next item where one is left, else the end of the
/// stage and what follows it.
pub open spec fn spec_continue(state: InitView) -> (InitView, InitStepView) {
    let items = spec_items(state);
    if state.index < items.len() {
        (state, InitStepView { ended: None, next: Some(InitTaskView::Run(items[state.index as int])) })
    } else {
        spec_after(
            state,
            Some(StageEnd { stage: spec_stage(state.phase), success: !state.failed }),
        )
    }
}

/// One step of the set-up: from the state and the report of the task that
/// was asked for last to the next state, the stage that ended and the next
/// task. `programs` are the programs that the framework knows.
pub open spec fn spec_step(
    state: InitView,
    programs: Programs,
    report: ReportView,
) -> (InitView, InitStepView) {
    let success = spec_succeeded(report);
    match state.phase {
        Phase::Start => (
            InitView { phase: Phase::CheckToolset, ..state },
            InitStepView { ended: None, next: Some(InitTaskView::CheckToolset) },
        ),
        Phase::CheckToolset => if success {
            (
                InitView { phase: Phase::MapProgramNames, ..state },
                InitStepView {
                    ended: Some(StageEnd { stage: Stage::CheckToolset, success: true }),
                    next: Some(InitTaskView::MapProgramNames),
                },
            )
        } else {
            (
                InitView { phase: Phase::Aborted, ..state },
                InitStepView {
                    ended: Some(StageEnd { stage: Stage::CheckToolset, success: false }),
                    next: None,
                },
            )
        },
        Phase::MapProgramNames => (
            InitView { phase: Phase::StartValidator, ..state },
            InitStepView {
                ended: Some(StageEnd { stage: Stage::MapProgramNames, success }),
                next: Some(InitTaskView::StartValidator(state.origin)),
            },
        ),
        Phase::StartValidator => (
            InitView { phase: Phase::ProbeDeployDir, ..state },
            InitStepView {
                ended: Some(StageEnd { stage: Stage::StartValidator, success }),
                next: Some(InitTaskView::ProbeDeployDir(spec_deploy_dir(state.origin))),
            },
        ),
        Phase::ProbeDeployDir => if report == ReportView::Exists(true) {
            (
                InitView { phase: Phase::ReadDeployDir, ..state },
                InitStepView {
                    ended: None,
                    next: Some(InitTaskView::ReadDeployDir(spec_deploy_dir(state.origin))),
                },
            )
        } else {
            (
                InitView { phase: Phase::Setup, ..state },
                InitStepView { ended: None, next: Some(InitTaskView::Setup(state.origin)) },
            )
        },
        Phase::Setup => (
            InitView { phase: Phase::ReadDeployDir, ..state },
            InitStepView {
                ended: Some(StageEnd { stage: Stage::Setup, success }),
                next: Some(InitTaskView::ReadDeployDir(spec_deploy_dir(state.origin))),
            },
        ),
        Phase::ReadDeployDir => {
            let entries = match report {
                ReportView::Entries(entries) => entries,
                _ => Seq::empty(),
            };
            let keypair_paths = spec_with_extension(entries, extension::JSON@);
            let elf_paths = spec_with_extension(entries, extension::SO@);
            let build_paths = spec_build_paths(programs, keypair_paths, elf_paths);
            spec_begin(
                InitView { keypair_paths, elf_paths, build_paths, ..state },
                None,
                Phase::UpdateProgramIds,
            )
        },
        Phase::BeginUpdateProgramIds => spec_continue(
            InitView { phase: Phase::UpdateProgramIds, ..state },
        ),
        Phase::BeginBuild => spec_continue(InitView { phase: Phase::Build, ..state }),
        Phase::BeginDeploy => spec_continue(InitView { phase: Phase::Deploy, ..state }),
        Phase::UpdateProgramIds | Phase::Build | Phase::Deploy => spec_continue(
            InitView { index: state.index + 1, failed: state.failed || !success, ..state },
        ),
        Phase::Finished | Phase::Aborted => (state, InitStepView { ended: None, next: None }),
    }
}

/// What holds of every state that the set-up reaches: in a stage that works
/// through items, an item is being worked on; where a stage was announced,
/// none of its items is done and none has failed.
pub open spec fn spec_reachable(state: InitView) -> bool {
    match state.phase {
        Phase::UpdateProgramIds | Phase::Build | Phase::Deploy => state.index < spec_items(
            state,
        ).len(),
        Phase::BeginUpdateProgramIds | Phase::BeginBuild | Phase::BeginDeploy => state.index == 0
            && !state.failed,
        _ => true,
    }
}

impl Stage {
    /// What the user is told while the stage runs, when it succeeded and when
    /// it failed. The check of the tools and the mapping of the programs run
    /// silently.
    pub open spec fn spec_progress(self) -> ProgressView {
        match self {
            Stage::CheckToolset | Stage::MapProgramNames => ProgressView {
                message: None,
                success_message: None,
                error_message: None,
                clear: false,
            },
            Stage::StartValidator => ProgressView {
                message: Some("Starting Solana test validator..."@),
                success_message: Some("Running Solana test validator"@),
                error_message: Some("Could not start Solana test validator"@),
                clear: false,
            },
            Stage::Setup => ProgressView {
                message: Some("Setting up..."@),
                success_message: Some("Setup success"@),
                error_message: Some("Setup error"@),
                clear: false,
            },
            Stage::UpdateProgramIds => ProgressView {
                message: Some("Checking program ids..."@),
                success_message: Some("Program ids are up to date"@),
                error_message: Some("Couldn't update program ids"@),
                clear: false,
            },
            Stage::Build => ProgressView {
                message: Some("Building..."@),
                success_message: Some("Built programs"@),
                error_message: Some("Couldn't build programs"@),
                clear: false,
            },
            Stage::Deploy => ProgressView {
                message: Some("Deploying programs..."@),
                success_message: Some("Deployed programs"@),
                error_message: Some("Couldn't deploy programs"@),
                clear: false,
            },
        }
    }

    /// What the user is told while the stage runs, when it succeeded and when
    /// it failed.
    pub fn progress(self) -> (r: Progress<'static>)
        ensures
            r@ == self.spec_progress(),
    {
        let (message, success, error): (&'static str, &'static str, &'static str) = match self {
            Stage::CheckToolset | Stage::MapProgramNames => {
                return Progress::new();
            },
            Stage::StartValidator => (
                "Starting Solana test validator...",
                "Running Solana test validator",
                "Could not start Solana test validator",
            ),
            Stage::Setup => ("Setting up...", "Setup success", "Setup error"),
            Stage::UpdateProgramIds => (
                "Checking program ids...",
                "Program ids are up to date",
                "Couldn't update program ids",
            ),
            Stage::Build => ("Building...", "Built programs", "Couldn't build programs"),
            Stage::Deploy => (
                "Deploying programs...",
                "Deployed programs",
                "Couldn't deploy programs",
            ),
        };
        let mut progress = Progress::new();
        progress.message(message).success_message(success).error_message(error);
        progress
    }
}

/// The paths among `entries` whose extension is `ext`, in order.
fn with_extension(entries: &Vec<String>, ext: &str) -> (r: Vec<String>)
    ensures
        r.deep_view() == spec_with_extension(entries.deep_view(), ext@),
{
    let mut found: Vec<String> = Vec::new();
    let mut i: usize = 0;
    assert(entries.deep_view().subrange(0, 0) =~= Seq::<Seq<char>>::empty());
    assert(found.deep_view() =~= Seq::<Seq<char>>::empty());
    while i < entries.len()
        invariant
            i <= entries.len(),
            found.deep_view() == spec_with_extension(
                entries.deep_view().subrange(0, i as int),
                ext@,
            ),
        decreases entries.len() - i,
    {
        let ghost before = found.deep_view();
        assert(entries.deep_view().subrange(0, i + 1).drop_last() =~= entries.deep_view().subrange(
            0,
            i as int,
        ));
        let has_it = match path_extension(entries[i].as_str()) {
            Some(found_ext) => str_eq(found_ext.as_str(), ext),
            None => false,
        };
        if has_it {
            found.push(entries[i].clone());
            assert(found.deep_view() =~= before.push(entries.deep_view()[i as int]));
        }
        i += 1;
    }
    assert(entries.deep_view().subrange(0, entries.len() as int) =~= entries.deep_view());
    found
}

/// Adds to `found` the programs that `paths` belong to, each once.
fn add_programs<F: Framework>(framework: &F, found: &mut Vec<String>, paths: &Vec<String>)
    requires
        framework.wf(),
    ensures
        final(found).deep_view() == spec_add_programs(
            framework.spec_programs(),
            old(found).deep_view(),
            paths.deep_view(),
        ),
{
    let mut i: usize = 0;
    assert(paths.deep_view().subrange(0, 0) =~= Seq::<Seq<char>>::empty());
    while i < paths.len()
        invariant
            i <= paths.len(),
            framework.wf(),
            found.deep_view() == spec_add_programs(
                framework.spec_programs(),
                old(found).deep_view(),
                paths.deep_view().subrange(0, i as int),
            ),
        decreases paths.len() - i,
    {
        assert(paths.deep_view().subrange(0, i + 1).drop_last() =~= paths.deep_view().subrange(
            0,
            i as int,
        ));
        match framework.get_program_path(paths[i].as_str()) {
            Some(program_path) => {
                push_unique(found, program_path.as_str());
            },
            None => {},
        }
        i += 1;
    }
    assert(paths.deep_view().subrange(0, paths.len() as int) =~= paths.deep_view());
}

impl Initialization {
    /// The set-up of the project at `origin`, before anything was asked for.
    pub fn new(origin: &str) -> (r: Self)
        ensures
            r@ == spec_initial(origin@),
    {
        let r = Initialization {
            phase: Phase::Start,
            origin: String::from_str(origin),
            keypair_paths: Vec::new(),
            elf_paths: Vec::new(),
            build_paths: Vec::new(),
            index: 0,
            failed: false,
        };
        assert(r.keypair_paths.deep_view() =~= Seq::<Seq<char>>::empty());
        assert(r.elf_paths.deep_view() =~= Seq::<Seq<char>>::empty());
        assert(r.build_paths.deep_view() =~= Seq::<Seq<char>>::empty());
        r
    }

    /// Where the set-up stands.
    pub fn phase(&self) -> (r: Phase)
        ensures
            r == self@.phase,
    {
        self.phase
    }

    /// Whether the set-up was given up because no required tool is installed.
    pub fn is_aborted(&self) -> (r: bool)
        ensures
            r == (self@.phase == Phase::Aborted),
    {
        self.phase == Phase::Aborted
    }

    /// The announcement of the stage that `phase` works on.
    fn begin(&mut self, ended: Option<StageEnd>, phase: Phase) -> (r: InitStep)
        requires
            phase == Phase::UpdateProgramIds || phase == Phase::Build || phase == Phase::Deploy,
        ensures
            (final(self)@, r@) == spec_begin(old(self)@, ended, phase),
    {
        let (announced, stage, len) = match phase {
            Phase::UpdateProgramIds => (
                Phase::BeginUpdateProgramIds,
                Stage::UpdateProgramIds,
                self.keypair_paths.len(),
            ),
            Phase::Build => (Phase::BeginBuild, Stage::Build, self.build_paths.len()),
            _ => (Phase::BeginDeploy, Stage::Deploy, self.elf_paths.len()),
        };
        self.phase = announced;
        self.index = 0;
        self.failed = false;
        InitStep { ended, next: Some(InitTask::Begin(stage, len)) }
    }

    /// The next item of the current stage, or the end of the stage.
    fn proceed(&mut self) -> (r: InitStep)
        requires
            old(self)@.phase == Phase::UpdateProgramIds || old(self)@.phase == Phase::Build || old(
                self,
            )@.phase == Phase::Deploy,
        ensures
            (final(self)@, r@) == spec_continue(old(self)@),
    {
        let items = match self.phase {
            Phase::UpdateProgramIds => &self.keypair_paths,
            Phase::Build => &self.build_paths,
            _ => &self.elf_paths,
        };
        if self.index < items.len() {
            let path = items[self.index].clone();
            let task = match self.phase {
                Phase::UpdateProgramIds => Task::UpdateProgramId(path),
                Phase::Build => Task::Build(path),
                _ => Task::Deploy(path),
            };
            InitStep { ended: None, next: Some(InitTask::Run(task)) }
        } else {
            let ended = Some(
                StageEnd {
                    stage: match self.phase {
                        Phase::UpdateProgramIds => Stage::UpdateProgramIds,
                        Phase::Build => Stage::Build,
                        _ => Stage::Deploy,
                    },
                    success: !self.failed,
                },
            );
            match self.phase {
                Phase::UpdateProgramIds => self.begin(ended, Phase::Build),
                Phase::Build => self.begin(ended, Phase::Deploy),
                _ => {
                    self.phase = Phase::Finished;
                    self.index = 0;
                    self.failed = false;
                    InitStep { ended, next: None }
                },
            }
        }
    }

    /// Takes the report of the task that was asked for last and tells which
    /// stage it ended, if any, and what to do next. The first call, whose
    /// report is passed over, asks for the first task.
    ///
    /// The stages follow each other in a fixed order. A failed check of the
    /// tools ends the set-up; any other failure is passed on in `ended` and
    /// the set-up goes on. `framework` is asked for the programs that the
    /// files of the build output belong to.
    pub fn step<F: Framework>(&mut self, framework: &F, report: Report) -> (r: InitStep)
        requires
            framework.wf(),
            spec_reachable(old(self)@),
        ensures
            (final(self)@, r@) == spec_step(old(self)@, framework.spec_programs(), report@),
            spec_reachable(final(self)@),
    {
        let success = match report {
            Report::Done(success) => success,
            _ => false,
        };
        match self.phase {
            Phase::Start => {
                self.phase = Phase::CheckToolset;
                InitStep { ended: None, next: Some(InitTask::CheckToolset) }
            },
            Phase::CheckToolset => {
                if success {
                    self.phase = Phase::MapProgramNames;
                    InitStep {
                        ended: Some(StageEnd { stage: Stage::CheckToolset, success: true }),
                        next: Some(InitTask::MapProgramNames),
                    }
                } else {
                    self.phase = Phase::Aborted;
                    InitStep {
                        ended: Some(StageEnd { stage: Stage::CheckToolset, success: false }),
                        next: None,
                    }
                }
            },
            Phase::MapProgramNames => {
                self.phase = Phase::StartValidator;
                InitStep {
                    ended: Some(StageEnd { stage: Stage::MapProgramNames, success }),
                    next: Some(InitTask::StartValidator(self.origin.clone())),
                }
            },
            Phase::StartValidator => {
                self.phase = Phase::ProbeDeployDir;
                InitStep {
                    ended: Some(StageEnd { stage: Stage::StartValidator, success }),
                    next: Some(InitTask::ProbeDeployDir(deploy_dir(self.origin.as_str()))),
                }
            },
            Phase::ProbeDeployDir => {
                let exists = match report {
                    Report::Exists(exists) => exists,
                    _ => false,
                };
                if exists {
                    self.phase = Phase::ReadDeployDir;
                    InitStep {
                        ended: None,
                        next: Some(InitTask::ReadDeployDir(deploy_dir(self.origin.as_str()))),
                    }
                } else {
                    self.phase = Phase::Setup;
                    InitStep { ended: None, next: Some(InitTask::Setup(self.origin.clone())) }
                }
            },
            Phase::Setup => {
                self.phase = Phase::ReadDeployDir;
                InitStep {
                    ended: Some(StageEnd { stage: Stage::Setup, success }),
                    next: Some(InitTask::ReadDeployDir(deploy_dir(self.origin.as_str()))),
                }
            },
            Phase::ReadDeployDir => {
                let entries = match report {
                    Report::Entries(entries) => entries,
                    _ => Vec::new(),
                };
                assert(report@ !is Entries ==> entries.deep_view() =~= Seq::<Seq<char>>::empty());
                self.keypair_paths = with_extension(&entries, extension::JSON);
                self.elf_paths = with_extension(&entries, extension::SO);
                let mut build_paths: Vec<String> = Vec::new();
                assert(build_paths.deep_view() =~= Seq::<Seq<char>>::empty());
                add_programs(framework, &mut build_paths, &self.keypair_paths);
                add_programs(framework, &mut build_paths, &self.elf_paths);
                self.build_paths = build_paths;
                self.begin(None, Phase::UpdateProgramIds)
            },
            Phase::BeginUpdateProgramIds => {
                self.phase = Phase::UpdateProgramIds;
                self.proceed()
            },
            Phase::BeginBuild => {
                self.phase = Phase::Build;
                self.proceed()
            },
            Phase::BeginDeploy => {
                self.phase = Phase::Deploy;
                self.proceed()
            },
            Phase::UpdateProgramIds | Phase::Build | Phase::Deploy => {
                proof {
                    assert(self@ == old(self)@);
                    assert(self.keypair_paths.deep_view().len() == self.keypair_paths.len());
                    assert(self.build_paths.deep_view().len() == self.build_paths.len());
                    assert(self.elf_paths.deep_view().len() == self.elf_paths.len());
                    assert(self.index < spec_items(self@).len());
                }
                self.index = self.index + 1;
                self.failed = self.failed || !success;
                self.proceed()
            },
            Phase::Finished | Phase::Aborted => InitStep { ended: None, next: None },
        }
    }
}

/// The place of a phase in the order of the set-up.
pub open spec fn spec_rank(phase: Phase) -> nat {
    match phase {
        Phase::Start => 0,
        Phase::CheckToolset => 1,
        Phase::MapProgramNames => 2,
        Phase::StartValidator => 3,
        Phase::ProbeDeployDir => 4,
        Phase::Setup => 5,
        Phase::ReadDeployDir => 6,
        Phase::BeginUpdateProgramIds => 7,
        Phase::UpdateProgramIds => 8,
        Phase::BeginBuild => 9,
        Phase::Build => 10,
        Phase::BeginDeploy => 11,
        Phase::Deploy => 12,
        Phase::Finished => 13,
        Phase::Aborted => 14,
    }
}

/// The set-up never goes back: a step leaves the phase in place only while
/// items of a stage are left or the set-up is over, and otherwise moves to a
/// later phase.
pub proof fn lemma_stages_in_order(
    state: InitView,
    programs: Programs,
    report: ReportView,
)
    ensures
        spec_rank(spec_step(state, programs, report).0.phase) >= spec_rank(state.phase),
        spec_step(state, programs, report).0.phase == state.phase ==> (state.phase
            == Phase::Finished || state.phase == Phase::Aborted || spec_step(
            state,
            programs,
            report,
        ).1.next matches Some(InitTaskView::Run(_))),
{
}

/// Only a failed check of the tools ends the set-up early: a step gives the
/// set-up up if and only if it was given up already or the tools were being
/// checked and the report tells of no success.
pub proof fn lemma_only_toolset_aborts(
    state: InitView,
    programs: Programs,
    report: ReportView,
)
    ensures
        spec_step(state, programs, report).0.phase == Phase::Aborted <==> (state.phase
            == Phase::Aborted || (state.phase == Phase::CheckToolset && !spec_succeeded(report))),
{
}

/// A step asks for nothing further exactly where the set-up is over
/// afterwards.
pub proof fn lemma_next_until_over(
    state: InitView,
    programs: Programs,
    report: ReportView,
)
    ensures
        spec_step(state, programs, report).1.next is None <==> (spec_step(
            state,
            programs,
            report,
        ).0.phase == Phase::Finished || spec_step(state, programs, report).0.phase
            == Phase::Aborted),
{
}

/// The keypairs and compiled programs are those found in the build output
/// when it was read, and stay so: a step changes them only while the build
/// output is read.
pub proof fn lemma_findings_stay(
    state: InitView,
    programs: Programs,
    report: ReportView,
)
    requires
        state.phase != Phase::ReadDeployDir,
    ensures
        spec_step(state, programs, report).0.keypair_paths == state.keypair_paths,
        spec_step(state, programs, report).0.elf_paths == state.elf_paths,
        spec_step(state, programs, report).0.build_paths == state.build_paths,
        spec_step(state, programs, report).0.origin == state.origin,
{
}

} // verus!
