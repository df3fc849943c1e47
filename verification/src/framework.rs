//! What a supported framework has to answer, and what is done about a batch
//! of changed files.

use crate::action::{spec_all_paths, WAction};
use crate::batch::{spec_batch, spec_batch_reachable, Batch};
use crate::command::{CommandLine, WCommand};
use crate::constants::{dirname, extension};
use crate::error::WatchError;
use crate::framework_utils::{
    create_globset_filterer, get_watch_pathset, pubkey_command, spec_default_ignores,
    spec_entered, spec_program_path, spec_with_programs, FiltererConfig, Program, Programs,
};
use crate::initialize::{spec_initial, Initialization};
use crate::list::spec_unique;
use crate::path::{extension as path_extension, join, path_join, spec_extension};
use crate::text::str_eq;
use vstd::prelude::*;
use vstd::string::*;

verus! {

/// One thing that the host is asked to do about a changed file.
#[derive(Debug)]
pub enum Task {
    /// Find the directory of the program that this source file belongs to.
    Locate(String),
    /// Build the program in this directory, or from this source file.
    Build(String),
    /// Deploy this compiled program.
    Deploy(String),
    /// Bring the declared program id in line with this keypair.
    UpdateProgramId(String),
}

/// A `Task` as the library reasons about it.
pub enum TaskView {
    /// Find the program of a source file.
    Locate(Seq<char>),
    /// Build a program.
    Build(Seq<char>),
    /// Deploy a compiled program.
    Deploy(Seq<char>),
    /// Bring the declared program id in line with a keypair.
    UpdateProgramId(Seq<char>),
}

impl View for Task {
    type V = TaskView;

    open spec fn view(&self) -> TaskView {
        match self {
            Task::Locate(path) => TaskView::Locate(path@),
            Task::Build(path) => TaskView::Build(path@),
            Task::Deploy(path) => TaskView::Deploy(path@),
            Task::UpdateProgramId(path) => TaskView::UpdateProgramId(path@),
        }
    }
}

impl DeepView for Task {
    type V = TaskView;

    open spec fn deep_view(&self) -> TaskView {
        self@
    }
}

/// How a program declares its id.
#[derive(Clone, Copy, Debug, PartialEq, Eq, Structural)]
pub enum Declaration {
    /// With `declare_id!` in a Rust source file under `src`.
    Rust,
    /// With `declare_id` in the Python source file of the program.
    Seahorse,
}

/// What a change of `path` asks for in a Rust project: a changed source file
/// or manifest has its program located, to be built later; a compiled program
/// is deployed; a keypair has the program id updated. Other files ask for
/// nothing.
pub open spec fn spec_rust_task(path: Seq<char>) -> Option<TaskView> {
    match spec_extension(path) {
        Some(ext) => if ext == extension::RS@ || ext == extension::TOML@ {
            Some(TaskView::Locate(path))
        } else if ext == extension::SO@ {
            Some(TaskView::Deploy(path))
        } else if ext == extension::JSON@ {
            Some(TaskView::UpdateProgramId(path))
        } else {
            None
        },
        None => None,
    }
}

/// What a change of `path` asks for in a Seahorse project: a changed Python
/// source is built; a compiled program is deployed; a keypair has the program
/// id updated. Other files ask for nothing.
pub open spec fn spec_seahorse_task(path: Seq<char>) -> Option<TaskView> {
    match spec_extension(path) {
        Some(ext) => if ext == extension::PY@ {
            Some(TaskView::Build(path))
        } else if ext == extension::SO@ {
            Some(TaskView::Deploy(path))
        } else if ext == extension::JSON@ {
            Some(TaskView::UpdateProgramId(path))
        } else {
            None
        },
        None => None,
    }
}

/// What a change of `path` asks for, by the kind of project.
pub open spec fn spec_task(declaration: Declaration, path: Seq<char>) -> Option<TaskView> {
    match declaration {
        Declaration::Rust => spec_rust_task(path),
        Declaration::Seahorse => spec_seahorse_task(path),
    }
}

/// The tasks that `paths` ask for, in the order of the paths.
pub open spec fn spec_tasks(declaration: Declaration, paths: Seq<Seq<char>>) -> Seq<TaskView>
    decreases paths.len(),
{
    if paths.len() == 0 {
        Seq::empty()
    } else {
        let before = spec_tasks(declaration, paths.drop_last());
        match spec_task(declaration, paths.last()) {
            Some(found) => before.push(found),
            None => before,
        }
    }
}

/// The tasks that a batch of notifications asks for: one for each path that
/// matters, in the order in which the paths first occur in the batch.
pub open spec fn spec_batch_tasks(declaration: Declaration, events: Seq<crate::action::Event>) -> Seq<
    TaskView,
> {
    spec_tasks(declaration, spec_unique(spec_all_paths(events)))
}

/// What a change of `path` asks for, by the kind of project.
pub fn task_for(declaration: Declaration, path: &str) -> (r: Option<Task>)
    ensures
        r.deep_view() == spec_task(declaration, path@),
{
    match path_extension(path) {
        Some(ext) => {
            let ext = ext.as_str();
            let is_source = match declaration {
                Declaration::Rust => str_eq(ext, extension::RS) || str_eq(ext, extension::TOML),
                Declaration::Seahorse => str_eq(ext, extension::PY),
            };
            if is_source {
                match declaration {
                    Declaration::Rust => Some(Task::Locate(String::from_str(path))),
                    Declaration::Seahorse => Some(Task::Build(String::from_str(path))),
                }
            } else if str_eq(ext, extension::SO) {
                Some(Task::Deploy(String::from_str(path)))
            } else if str_eq(ext, extension::JSON) {
                Some(Task::UpdateProgramId(String::from_str(path)))
            } else {
                None
            }
        },
        None => None,
    }
}

/// The tasks that the changed files of a batch ask for, in the order in
/// which the files first occur in the batch.
pub fn tasks(declaration: Declaration, action: &WAction) -> (r: Vec<Task>)
    ensures
        r.deep_view() == spec_batch_tasks(declaration, action@),
{
    let paths = action.get_unique_paths();
    let mut tasks: Vec<Task> = Vec::new();
    let mut i: usize = 0;
    assert(paths.deep_view().subrange(0, 0) =~= Seq::<Seq<char>>::empty());
    assert(tasks.deep_view() =~= Seq::<TaskView>::empty());
    while i < paths.len()
        invariant
            i <= paths.len(),
            tasks.deep_view() == spec_tasks(declaration, paths.deep_view().subrange(0, i as int)),
        decreases paths.len() - i,
    {
        let ghost before = tasks.deep_view();
        assert(paths.deep_view().subrange(0, i + 1).drop_last() =~= paths.deep_view().subrange(
            0,
            i as int,
        ));
        match task_for(declaration, paths[i].as_str()) {
            Some(found) => {
                tasks.push(found);
                assert(tasks.deep_view() =~= before.push(found@));
            },
            None => {},
        }
        i += 1;
    }
    assert(paths.deep_view().subrange(0, paths.len() as int) =~= paths.deep_view());
    tasks
}

/// What an update of a program's declared id starts from.
#[derive(Debug)]
pub struct IdUpdate {
    /// The program's directory or, for Seahorse, its source file.
    pub program_path: String,
    /// The command that prints the address of the keypair.
    pub pubkey_command: WCommand,
    /// How the program declares its id.
    pub declaration: Declaration,
}

/// A framework for Solana programs: where its programs are, which tools it
/// needs and which commands build and deploy a program.
pub trait Framework {
    /// What holds of every framework value that the library hands out.
    spec fn wf(&self) -> bool;

    /// The root directory of the project.
    spec fn spec_origin(&self) -> Seq<char>;

    /// The known programs: for each name the program's path.
    spec fn spec_programs(&self) -> Programs;

    /// The tools to look for, in order of preference. One of them is enough.
    spec fn spec_tools(&self) -> Seq<Seq<char>>;

    /// What is reported missing where none of the tools is installed.
    spec fn spec_missing(&self) -> Seq<char>;

    /// The command that builds the program at `program_path`.
    spec fn spec_build(&self, program_path: Seq<char>) -> CommandLine;

    /// The command that deploys the compiled program at `elf_path`.
    spec fn spec_deploy(&self, elf_path: Seq<char>) -> CommandLine;

    /// How the programs of this framework declare their id.
    spec fn spec_declaration(&self) -> Declaration;

    /// The root directory of the project; other paths derive from it.
    fn origin(&self) -> (r: &str)
        ensures
            r@ == self.spec_origin(),
    ;

    /// The tools to look for, in order of preference. A tool is installed if
    /// and only if `<tool> --version` runs and succeeds.
    fn tools(&self) -> (r: Vec<&'static str>)
        ensures
            r.deep_view() == self.spec_tools(),
    ;

    /// Checks the installed tools. `installed` tells for each of `tools`, in
    /// order, whether it is installed; a tool without an entry counts as not
    /// installed. It fails with `CommandNotFound` if and only if none is.
    fn check_toolset(&mut self, installed: &Vec<bool>) -> (r: Result<(), WatchError>)
        requires
            old(self).wf(),
        ensures
            final(self).wf(),
            final(self).spec_origin() == old(self).spec_origin(),
            final(self).spec_programs() == old(self).spec_programs(),
            final(self).spec_tools() == old(self).spec_tools(),
            final(self).spec_declaration() == old(self).spec_declaration(),
            r is Ok <==> spec_first_installed(old(self).spec_tools(), installed@) is Some,
            r matches Err(error) ==> (error matches WatchError::CommandNotFound(command)
                && command@ == old(self).spec_missing()),
    ;

    /// Enters the program `name` with its path, so that later changes need no
    /// look at the file system.
    fn set_program_path(&mut self, name: &str, path: &str)
        requires
            old(self).wf(),
        ensures
            final(self).wf(),
            final(self).spec_origin() == old(self).spec_origin(),
            final(self).spec_tools() == old(self).spec_tools(),
            final(self).spec_declaration() == old(self).spec_declaration(),
            forall|program_path: Seq<char>|
                final(self).spec_build(program_path) == old(self).spec_build(program_path),
            final(self).spec_programs() == spec_entered(old(self).spec_programs(), name@, path@),
    ;

    /// The path of the program that `path` belongs to. `path` can be any
    /// path that tells the program: the program's keypair and its compiled
    /// form are named after it.
    fn get_program_path(&self, path: &str) -> (r: Option<String>)
        requires
            self.wf(),
        ensures
            r.deep_view() == spec_program_path(self.spec_programs(), path@),
    ;

    /// The command that builds the program at `program_path`.
    fn build(&self, program_path: &str) -> (r: WCommand)
        requires
            self.wf(),
        ensures
            r@ == self.spec_build(program_path@),
    ;

    /// The command that deploys the compiled program at `elf_path`.
    fn deploy(&self, elf_path: &str) -> (r: WCommand)
        requires
            self.wf(),
        ensures
            r@ == self.spec_deploy(elf_path@),
    ;

    /// Enters `programs`, in order.
    fn map_program_names(&mut self, programs: &Vec<Program>)
        requires
            old(self).wf(),
        ensures
            final(self).wf(),
            final(self).spec_origin() == old(self).spec_origin(),
            final(self).spec_tools() == old(self).spec_tools(),
            final(self).spec_declaration() == old(self).spec_declaration(),
            forall|program_path: Seq<char>|
                final(self).spec_build(program_path) == old(self).spec_build(program_path),
            final(self).spec_programs() == spec_with_programs(
                old(self).spec_programs(),
                programs.deep_view(),
            ),
    {
        let mut i: usize = 0;
        assert(programs.deep_view().subrange(0, 0) =~= Seq::<(Seq<char>, Seq<char>)>::empty());
        while i < programs.len()
            invariant
                i <= programs.len(),
                self.wf(),
                self.spec_origin() == old(self).spec_origin(),
                self.spec_tools() == old(self).spec_tools(),
                self.spec_declaration() == old(self).spec_declaration(),
                forall|program_path: Seq<char>|
                    self.spec_build(program_path) == old(self).spec_build(program_path),
                self.spec_programs() == spec_with_programs(
                    old(self).spec_programs(),
                    programs.deep_view().subrange(0, i as int),
                ),
            decreases programs.len() - i,
        {
            assert(programs.deep_view().subrange(0, i + 1).drop_last()
                =~= programs.deep_view().subrange(0, i as int));
            self.set_program_path(programs[i].name.as_str(), programs[i].root_path.as_str());
            i += 1;
        }
        assert(programs.deep_view().subrange(0, programs.len() as int) =~= programs.deep_view());
    }

    /// The set-up of the project, which is run step by step before watching
    /// starts.
    fn initialize(&self) -> (r: Initialization)
        ensures
            r@ == spec_initial(self.spec_origin()),
    {
        Initialization::new(self.origin())
    }

    /// How the programs of this framework declare their id.
    fn declaration(&self) -> (r: Declaration)
        ensures
            r == self.spec_declaration(),
    ;

    /// What an update of the program id for the keypair at
    /// `program_keypair_path` starts from. There is nothing to update where
    /// the keypair belongs to no known program.
    fn update_program_id(&self, program_keypair_path: &str) -> (r: Option<IdUpdate>)
        requires
            self.wf(),
        ensures
            match spec_program_path(self.spec_programs(), program_keypair_path@) {
                Some(program_path) => r matches Some(update) && update.program_path@
                    == program_path && update.pubkey_command@ == crate::command::spec_command(
                    "solana address -k "@ + program_keypair_path@,
                ) && update.declaration == self.spec_declaration(),
                None => r is None,
            },
    {
        match self.get_program_path(program_keypair_path) {
            Some(program_path) => Some(
                IdUpdate {
                    program_path,
                    pubkey_command: pubkey_command(program_keypair_path),
                    declaration: self.declaration(),
                },
            ),
            None => None,
        }
    }
}

/// The first of `tools` that is installed, where `installed` tells for each
/// tool in order whether it is.
pub open spec fn spec_first_installed(tools: Seq<Seq<char>>, installed: Seq<bool>) -> Option<int>
    decreases tools.len(),
{
    if tools.len() == 0 {
        None
    } else {
        match spec_first_installed(tools.drop_last(), installed) {
            Some(i) => Some(i),
            None => if tools.len() <= installed.len() && installed[tools.len() - 1] {
                Some(tools.len() - 1)
            } else {
                None
            },
        }
    }
}

/// The position of the tool to look for next, where `installed` tells what
/// was found of the tools looked for so far, in order: the tool behind them,
/// and none once a tool was found installed or every tool was looked for.
pub open spec fn spec_next_probe(tools: Seq<Seq<char>>, installed: Seq<bool>) -> Option<usize> {
    if installed.contains(true) || installed.len() >= tools.len() {
        None
    } else {
        Some(installed.len() as usize)
    }
}

/// The position of the tool to look for next, where `installed` tells what
/// was found of the tools looked for so far, in order. The tools are looked
/// for in their order of preference, and the first one found installed ends
/// the looking.
pub fn next_probe(tools: &Vec<&'static str>, installed: &Vec<bool>) -> (r: Option<usize>)
    ensures
        r == spec_next_probe(tools.deep_view(), installed@),
        r matches Some(i) ==> i < tools.len(),
{
    let mut i: usize = 0;
    while i < installed.len()
        invariant
            i <= installed.len(),
            forall|j: int| 0 <= j < i ==> !installed@[j],
        decreases installed.len() - i,
    {
        if installed[i] {
            assert(installed@[i as int] == true);
            return None;
        }
        i += 1;
    }
    if installed.len() >= tools.len() {
        None
    } else {
        Some(installed.len())
    }
}

/// Looking for the tools one after the other finds what the check of the
/// tools goes by: once nothing is left to look for, a tool is found
/// installed if and only if the check succeeds, and it is the tool at the
/// last position looked at.
pub proof fn lemma_probes_decide(tools: Seq<Seq<char>>, installed: Seq<bool>)
    requires
        installed.len() <= tools.len(),
        forall|j: int| 0 <= j < installed.len() - 1 ==> !installed[j],
        spec_next_probe(tools, installed) is None,
    ensures
        spec_first_installed(tools, installed) == if installed.contains(true) {
            Some(installed.len() - 1)
        } else {
            None::<int>
        },
{
    lemma_first_installed(tools, installed);
    if installed.contains(true) {
        let k = choose|k: int| 0 <= k < installed.len() && installed[k] == true;
        assert(k == installed.len() - 1);
    }
}

/// What `spec_first_installed` yields: the first position of a tool that
/// `installed` tells to be installed, or nothing where it tells so of none.
pub proof fn lemma_first_installed(tools: Seq<Seq<char>>, installed: Seq<bool>)
    ensures
        match spec_first_installed(tools, installed) {
            Some(i) => 0 <= i < tools.len() && i < installed.len() && installed[i] && forall|
                j: int,
            |
                0 <= j < i ==> !installed[j],
            None => forall|j: int| 0 <= j < tools.len() && j < installed.len() ==> !installed[j],
        },
    decreases tools.len(),
{
    if tools.len() > 0 {
        lemma_first_installed(tools.drop_last(), installed);
    }
}

/// The extensions of the files that matter, by the kind of project.
pub open spec fn spec_extensions(declaration: Declaration) -> Seq<Seq<char>> {
    match declaration {
        Declaration::Rust => seq![
            extension::RS@,
            extension::TOML@,
            extension::SO@,
            extension::JSON@,
        ],
        Declaration::Seahorse => seq![extension::PY@, extension::SO@, extension::JSON@],
    }
}

/// The directories to watch, by the kind of project: `target/deploy` always;
/// for Rust the programs of the workspace or else `src`, for Seahorse
/// `programs_py`.
pub open spec fn spec_pathset(
    declaration: Declaration,
    workspace_programs: Option<Seq<Seq<char>>>,
) -> Seq<Seq<char>> {
    seq![path_join(dirname::TARGET@, dirname::DEPLOY@)] + (match declaration {
        Declaration::Rust => match workspace_programs {
            Some(programs) => programs,
            None => seq![dirname::SRC@],
        },
        Declaration::Seahorse => seq![dirname::PROGRAMS_PY@],
    })
}

/// A framework whose projects can be watched.
pub trait WatchableFramework: Framework {
    /// The directories to watch. `workspace_programs` holds the program
    /// directories of the workspace, where the project is one.
    ///
    /// The watcher looks at every file under these directories and filters
    /// afterwards, so directories with a great number of files are better
    /// left out.
    fn pathset(&self, workspace_programs: Option<Vec<String>>) -> (r: Vec<String>)
        ensures
            r.deep_view() == spec_pathset(self.spec_declaration(), workspace_programs.deep_view()),
    {
        match self.declaration() {
            Declaration::Rust => get_watch_pathset(workspace_programs),
            Declaration::Seahorse => {
                let mut paths: Vec<String> = Vec::new();
                paths.push(join(dirname::TARGET, dirname::DEPLOY));
                paths.push(String::from_str(dirname::PROGRAMS_PY));
                assert(paths.deep_view() =~= spec_pathset(
                    Declaration::Seahorse,
                    workspace_programs.deep_view(),
                ));
                paths
            },
        }
    }

    /// Which changed files are handled: those with one of the framework's
    /// extensions, outside the directories that are always ignored.
    fn filterer(&self) -> (r: FiltererConfig)
        ensures
            r.filters.deep_view() == Seq::<Seq<char>>::empty(),
            r.ignores.deep_view() == spec_default_ignores(),
            r.extensions.deep_view() == spec_extensions(self.spec_declaration()),
    {
        let none: Vec<String> = Vec::new();
        let mut extensions: Vec<String> = Vec::new();
        match self.declaration() {
            Declaration::Rust => {
                extensions.push(String::from_str(extension::RS));
                extensions.push(String::from_str(extension::TOML));
            },
            Declaration::Seahorse => {
                extensions.push(String::from_str(extension::PY));
            },
        }
        extensions.push(String::from_str(extension::SO));
        extensions.push(String::from_str(extension::JSON));
        assert(extensions.deep_view() =~= spec_extensions(self.spec_declaration()));
        assert(none.deep_view() =~= Seq::<Seq<char>>::empty());
        let config = create_globset_filterer(&none, &none, &extensions);
        assert(config.ignores.deep_view() =~= spec_default_ignores());
        config
    }

    /// The handling of a batch of changes: one task for each changed file
    /// that matters, in the order in which the files first occur, and then
    /// the builds of the programs located. A file that several notifications
    /// name is handled once.
    fn on_action(&self, action: &WAction) -> (r: Batch)
        ensures
            r@ == spec_batch(spec_batch_tasks(self.spec_declaration(), action@)),
            spec_batch_reachable(r@),
    {
        Batch::new(self.declaration(), action)
    }
}

} // verus!
