//! The handling of one batch of changed files.
//!
//! The tasks that the changed files ask for are run in order. A changed
//! source file of a Rust project is only located: the programs so found are
//! built afterwards, each once, however many of its files changed. A task
//! that fails ends the handling of the batch.
//!
//! The library decides what comes next; the host does the work and reports
//! how it went.

use crate::action::WAction;
use crate::framework::{spec_batch_tasks, tasks, Declaration, Task, TaskView};
use crate::list::{push_unique, spec_push_unique};
use vstd::prelude::*;
use vstd::string::*;

verus! {

/// Where the handling of a batch stands.
#[derive(Clone, Copy, Debug, PartialEq, Eq, Structural)]
pub enum BatchPhase {
    /// Nothing was asked for yet.
    Start,
    /// A task of a changed file is being run.
    Tasks,
    /// A program is being built.
    Builds,
    /// Everything was done.
    Finished,
    /// A task failed and the rest was given up.
    Abandoned,
}

/// What the host reports of the task it was asked to run.
#[derive(Debug)]
pub enum Outcome {
    /// The task succeeded.
    Done,
    /// The source file lies in the program at this path.
    Located(String),
    /// The task failed.
    Failed,
}

/// An `Outcome` as the library reasons about it.
pub enum OutcomeView {
    /// The task succeeded.
    Done,
    /// The source file lies in the program at a path.
    Located(Seq<char>),
    /// The task failed.
    Failed,
}

impl View for Outcome {
    type V = OutcomeView;

    open spec fn view(&self) -> OutcomeView {
        match self {
            Outcome::Done => OutcomeView::Done,
            Outcome::Located(program_path) => OutcomeView::Located(program_path@),
            Outcome::Failed => OutcomeView::Failed,
        }
    }
}

/// The handling of a batch as the library reasons about it.
pub struct BatchView {
    /// Where the handling stands.
    pub phase: BatchPhase,
    /// The tasks of the changed files.
    pub tasks: Seq<TaskView>,
    /// The programs to build: those located so far, each once.
    pub programs: Seq<Seq<char>>,
    /// The position of the task or of the program being worked on.
    pub index: nat,
}

/// The handling of a batch.
#[derive(Debug)]
pub struct Batch {
    phase: BatchPhase,
    tasks: Vec<Task>,
    programs: Vec<String>,
    index: usize,
}

impl View for Batch {
    type V = BatchView;

    closed spec fn view(&self) -> BatchView {
        BatchView {
            phase: self.phase,
            tasks: self.tasks.deep_view(),
            programs: self.programs.deep_view(),
            index: self.index as nat,
        }
    }
}

/// The handling of the given tasks before anything was asked for.
pub open spec fn spec_batch(tasks: Seq<TaskView>) -> BatchView {
    BatchView { phase: BatchPhase::Start, tasks, programs: Seq::empty(), index: 0 }
}

/// The program at `index` is built next, where there is one.
pub open spec fn spec_build_from(state: BatchView, index: nat) -> (BatchView, Option<TaskView>) {
    if index < state.programs.len() {
        (
            BatchView { phase: BatchPhase::Builds, index, ..state },
            Some(TaskView::Build(state.programs[index as int])),
        )
    } else {
        (BatchView { phase: BatchPhase::Finished, index, ..state }, None)
    }
}

/// The task at `index` is run next, where there is one; else the builds
/// begin.
pub open spec fn spec_run_from(state: BatchView, index: nat) -> (BatchView, Option<TaskView>) {
    if index < state.tasks.len() {
        (BatchView { phase: BatchPhase::Tasks, index, ..state }, Some(state.tasks[index as int]))
    } else {
        spec_build_from(state, 0)
    }
}

/// One step of the handling: from the state and the outcome of the task asked
/// for last to the next state and the next task.
pub open spec fn spec_batch_step(state: BatchView, outcome: OutcomeView) -> (
    BatchView,
    Option<TaskView>,
) {
    match state.phase {
        BatchPhase::Start => spec_run_from(state, 0),
        BatchPhase::Tasks => match outcome {
            OutcomeView::Failed => (BatchView { phase: BatchPhase::Abandoned, ..state }, None),
            OutcomeView::Located(program_path) => spec_run_from(
                BatchView { programs: spec_push_unique(state.programs, program_path), ..state },
                state.index + 1,
            ),
            OutcomeView::Done => spec_run_from(state, state.index + 1),
        },
        BatchPhase::Builds => match outcome {
            OutcomeView::Failed => (BatchView { phase: BatchPhase::Abandoned, ..state }, None),
            _ => spec_build_from(state, state.index + 1),
        },
        BatchPhase::Finished | BatchPhase::Abandoned => (state, None),
    }
}

/// What holds of every state that the handling reaches: the task or program
/// being worked on is one of those at hand, and no program is to be built
/// twice.
pub open spec fn spec_batch_reachable(state: BatchView) -> bool {
    &&& state.programs.no_duplicates()
    &&& state.phase == BatchPhase::Tasks ==> state.index < state.tasks.len()
    &&& state.phase == BatchPhase::Builds ==> state.index < state.programs.len()
}

impl Batch {
    /// The handling of the changed files of `action` in a project of the
    /// given kind.
    pub fn new(declaration: Declaration, action: &WAction) -> (r: Self)
        ensures
            r@ == spec_batch(spec_batch_tasks(declaration, action@)),
            spec_batch_reachable(r@),
    {
        let r = Batch {
            phase: BatchPhase::Start,
            tasks: tasks(declaration, action),
            programs: Vec::new(),
            index: 0,
        };
        assert(r.programs.deep_view() =~= Seq::<Seq<char>>::empty());
        r
    }

    /// Where the handling stands.
    pub fn phase(&self) -> (r: BatchPhase)
        ensures
            r == self@.phase,
    {
        self.phase
    }

    /// Asks for the build of the program at `index`, where there is one.
    fn build_from(&mut self, index: usize) -> (r: Option<Task>)
        ensures
            (final(self)@, r.deep_view()) == spec_build_from(old(self)@, index as nat),
    {
        self.index = index;
        if index < self.programs.len() {
            self.phase = BatchPhase::Builds;
            Some(Task::Build(self.programs[index].clone()))
        } else {
            self.phase = BatchPhase::Finished;
            None
        }
    }

    /// Asks for the task at `index`, where there is one; else for the first
    /// build.
    fn run_from(&mut self, index: usize) -> (r: Option<Task>)
        ensures
            (final(self)@, r.deep_view()) == spec_run_from(old(self)@, index as nat),
    {
        if index < self.tasks.len() {
            self.index = index;
            self.phase = BatchPhase::Tasks;
            let task = match &self.tasks[index] {
                Task::Locate(path) => Task::Locate(path.clone()),
                Task::Build(path) => Task::Build(path.clone()),
                Task::Deploy(path) => Task::Deploy(path.clone()),
                Task::UpdateProgramId(path) => Task::UpdateProgramId(path.clone()),
            };
            Some(task)
        } else {
            self.build_from(0)
        }
    }

    /// Takes the outcome of the task that was asked for last and tells what
    /// to run next; nothing where the handling is over. The first call, whose
    /// outcome is passed over, asks for the first task.
    pub fn step(&mut self, outcome: Outcome) -> (r: Option<Task>)
        requires
            spec_batch_reachable(old(self)@),
        ensures
            (final(self)@, r.deep_view()) == spec_batch_step(old(self)@, outcome@),
            spec_batch_reachable(final(self)@),
    {
        proof {
            assert(self.tasks.deep_view().len() == self.tasks.len());
            assert(self.programs.deep_view().len() == self.programs.len());
        }
        match self.phase {
            BatchPhase::Start => self.run_from(0),
            BatchPhase::Tasks => match outcome {
                Outcome::Failed => {
                    self.phase = BatchPhase::Abandoned;
                    None
                },
                Outcome::Located(program_path) => {
                    proof {
                        lemma_push_unique_keeps_unique(self.programs.deep_view(), program_path@);
                    }
                    push_unique(&mut self.programs, program_path.as_str());
                    let next = self.index + 1;
                    self.run_from(next)
                },
                Outcome::Done => {
                    let next = self.index + 1;
                    self.run_from(next)
                },
            },
            BatchPhase::Builds => match outcome {
                Outcome::Failed => {
                    self.phase = BatchPhase::Abandoned;
                    None
                },
                _ => {
                    let next = self.index + 1;
                    self.build_from(next)
                },
            },
            BatchPhase::Finished | BatchPhase::Abandoned => None,
        }
    }
}

/// Adding an item unless it is there already keeps a list free of
/// repetitions.
pub proof fn lemma_push_unique_keeps_unique(s: Seq<Seq<char>>, item: Seq<char>)
    requires
        s.no_duplicates(),
    ensures
        spec_push_unique(s, item).no_duplicates(),
{
}

/// What the handling has asked for after the given outcomes were reported in
/// order: the tasks of all the steps, those that asked for nothing left out.
pub open spec fn spec_asked(state: BatchView, outcomes: Seq<OutcomeView>) -> Seq<TaskView>
    decreases outcomes.len(),
{
    if outcomes.len() == 0 {
        Seq::empty()
    } else {
        let (next, task) = spec_batch_step(state, outcomes[0]);
        (match task {
            Some(task) => seq![task],
            None => Seq::empty(),
        }) + spec_asked(next, outcomes.drop_first())
    }
}

/// The state after the given outcomes were reported in order.
pub open spec fn spec_after(state: BatchView, outcomes: Seq<OutcomeView>) -> BatchView
    decreases outcomes.len(),
{
    if outcomes.len() == 0 {
        state
    } else {
        spec_after(spec_batch_step(state, outcomes[0]).0, outcomes.drop_first())
    }
}

/// No step changes the tasks of the changed files, and every state reached
/// from a reachable one is reachable.
pub proof fn lemma_batch_step_keeps(state: BatchView, outcome: OutcomeView)
    requires
        spec_batch_reachable(state),
    ensures
        spec_batch_reachable(spec_batch_step(state, outcome).0),
        spec_batch_step(state, outcome).0.tasks == state.tasks,
{
    match outcome {
        OutcomeView::Located(program_path) => {
            lemma_push_unique_keeps_unique(state.programs, program_path);
        },
        _ => {},
    }
}

/// Once the builds have begun, the programs to build stay as they are, and
/// what is asked for from then on are the builds of the programs behind the
/// one being built, in order, up to the first failure: no program is built
/// twice.
pub proof fn lemma_builds_follow(state: BatchView, outcomes: Seq<OutcomeView>)
    requires
        spec_batch_reachable(state),
        state.phase == BatchPhase::Builds,
    ensures
        spec_after(state, outcomes).programs == state.programs,
        spec_asked(state, outcomes).len() <= state.programs.len() - state.index - 1,
        forall|k: int|
            0 <= k < spec_asked(state, outcomes).len() ==> spec_asked(state, outcomes)[k]
                == TaskView::Build(state.programs[state.index + 1 + k]),
    decreases outcomes.len(),
{
    if outcomes.len() > 0 {
        let (next, task) = spec_batch_step(state, outcomes[0]);
        let rest = outcomes.drop_first();
        if next.phase == BatchPhase::Builds {
            lemma_builds_follow(next, rest);
        } else {
            lemma_over_stays(next, rest);
        }
    }
}

/// A handling that is over asks for nothing more.
pub proof fn lemma_over_stays(state: BatchView, outcomes: Seq<OutcomeView>)
    requires
        state.phase == BatchPhase::Finished || state.phase == BatchPhase::Abandoned,
    ensures
        spec_after(state, outcomes) == state,
        spec_asked(state, outcomes) == Seq::<TaskView>::empty(),
    decreases outcomes.len(),
{
    if outcomes.len() > 0 {
        lemma_over_stays(state, outcomes.drop_first());
    }
}

/// `programs` with the programs that `outcomes` located added in order, each
/// once.
pub open spec fn spec_add_located(programs: Seq<Seq<char>>, outcomes: Seq<OutcomeView>) -> Seq<
    Seq<char>,
>
    decreases outcomes.len(),
{
    if outcomes.len() == 0 {
        programs
    } else {
        spec_add_located(
            match outcomes[0] {
                OutcomeView::Located(program_path) => spec_push_unique(programs, program_path),
                _ => programs,
            },
            outcomes.drop_first(),
        )
    }
}

/// The first build, where there is a program to build.
pub open spec fn spec_first_build(programs: Seq<Seq<char>>) -> Seq<TaskView> {
    if programs.len() > 0 {
        seq![TaskView::Build(programs[0])]
    } else {
        Seq::empty()
    }
}

/// While the tasks of the changed files succeed, they are asked for in
/// order, and the programs to build are those located, each once. When the
/// last of the tasks is done the first program is built, or the handling is
/// over where no program was located.
pub proof fn lemma_tasks_run(state: BatchView, outcomes: Seq<OutcomeView>)
    requires
        spec_batch_reachable(state),
        state.phase == BatchPhase::Tasks,
        outcomes.len() <= state.tasks.len() - state.index,
        forall|k: int| 0 <= k < outcomes.len() ==> outcomes[k] != OutcomeView::Failed,
    ensures
        spec_after(state, outcomes).programs == spec_add_located(state.programs, outcomes),
        spec_after(state, outcomes).tasks == state.tasks,
        outcomes.len() < state.tasks.len() - state.index ==> spec_after(state, outcomes).phase
            == BatchPhase::Tasks && spec_after(state, outcomes).index == state.index
            + outcomes.len() && spec_asked(state, outcomes) == state.tasks.subrange(
            state.index as int + 1,
            state.index as int + 1 + outcomes.len(),
        ),
        outcomes.len() == state.tasks.len() - state.index ==> spec_after(state, outcomes).index
            == 0 && spec_after(state, outcomes).phase == (if spec_add_located(
            state.programs,
            outcomes,
        ).len() > 0 {
            BatchPhase::Builds
        } else {
            BatchPhase::Finished
        }) && spec_asked(state, outcomes) == state.tasks.subrange(
            state.index as int + 1,
            state.tasks.len() as int,
        ) + spec_first_build(spec_add_located(state.programs, outcomes)),
    decreases outcomes.len(),
{
    if outcomes.len() > 0 {
        let (next, task) = spec_batch_step(state, outcomes[0]);
        let rest = outcomes.drop_first();
        lemma_batch_step_keeps(state, outcomes[0]);
        assert forall|k: int| 0 <= k < rest.len() implies rest[k] != OutcomeView::Failed by {
            assert(rest[k] == outcomes[k + 1]);
        }
        if next.phase == BatchPhase::Tasks {
            lemma_tasks_run(next, rest);
            assert(task == Some(state.tasks[state.index as int + 1]));
            if outcomes.len() < state.tasks.len() - state.index {
                assert(spec_asked(state, outcomes) =~= state.tasks.subrange(
                    state.index as int + 1,
                    state.index as int + 1 + outcomes.len(),
                ));
            } else {
                assert(seq![state.tasks[state.index as int + 1]] + state.tasks.subrange(
                    state.index as int + 2,
                    state.tasks.len() as int,
                ) =~= state.tasks.subrange(state.index as int + 1, state.tasks.len() as int));
                assert(spec_asked(state, outcomes) =~= state.tasks.subrange(
                    state.index as int + 1,
                    state.tasks.len() as int,
                ) + spec_first_build(spec_add_located(state.programs, outcomes)));
            }
        } else {
            assert(rest.len() == 0);
            let located = match outcomes[0] {
                OutcomeView::Located(program_path) => spec_push_unique(state.programs, program_path),
                _ => state.programs,
            };
            assert(spec_add_located(located, rest) == located);
            assert(spec_add_located(state.programs, outcomes) == located);
            assert(next.programs == located);
            assert(spec_after(next, rest) == next);
            assert(task == if located.len() > 0 {
                Some(TaskView::Build(located[0]))
            } else {
                None
            });
            assert(spec_asked(next, rest) =~= Seq::<TaskView>::empty());
            assert(state.tasks.subrange(state.index as int + 1, state.tasks.len() as int)
                =~= Seq::<TaskView>::empty());
            assert(spec_asked(state, outcomes) =~= state.tasks.subrange(
                state.index as int + 1,
                state.tasks.len() as int,
            ) + spec_first_build(spec_add_located(state.programs, outcomes)));
        }
    } else {
        assert(spec_asked(state, outcomes) =~= state.tasks.subrange(
            state.index as int + 1,
            state.index as int + 1 + outcomes.len(),
        ));
    }
}

/// Where every program located is the same one, it is the one program to
/// build.
pub proof fn lemma_add_located_same(
    programs: Seq<Seq<char>>,
    outcomes: Seq<OutcomeView>,
    program_path: Seq<char>,
)
    requires
        programs == Seq::<Seq<char>>::empty() || programs == seq![program_path],
        forall|k: int|
            0 <= k < outcomes.len() ==> outcomes[k] == OutcomeView::Done || outcomes[k]
                == OutcomeView::Located(program_path),
    ensures
        spec_add_located(programs, outcomes) == if programs.len() > 0 || outcomes.contains(
            OutcomeView::Located(program_path),
        ) {
            seq![program_path]
        } else {
            Seq::<Seq<char>>::empty()
        },
    decreases outcomes.len(),
{
    if outcomes.len() > 0 {
        let rest = outcomes.drop_first();
        let next = match outcomes[0] {
            OutcomeView::Located(found) => spec_push_unique(programs, found),
            _ => programs,
        };
        assert forall|k: int| 0 <= k < rest.len() implies rest[k] == OutcomeView::Done || rest[k]
            == OutcomeView::Located(program_path) by {
            assert(rest[k] == outcomes[k + 1]);
        }
        assert(seq![program_path][0] == program_path);
        if outcomes[0] == OutcomeView::Located(program_path) {
            assert(next =~= seq![program_path]);
        }
        lemma_add_located_same(next, rest, program_path);
        if rest.contains(OutcomeView::Located(program_path)) {
            let k = choose|k: int|
                0 <= k < rest.len() && rest[k] == OutcomeView::Located(program_path);
            assert(outcomes[k + 1] == OutcomeView::Located(program_path));
        }
        if outcomes.contains(OutcomeView::Located(program_path)) && outcomes[0]
            != OutcomeView::Located(program_path) {
            let k = choose|k: int|
                0 <= k < outcomes.len() && outcomes[k] == OutcomeView::Located(program_path);
            assert(rest[k - 1] == OutcomeView::Located(program_path));
        }
    }
}

/// However many changed files belong to one program, the program is built
/// once. Where the tasks of the changed files all succeed and every source
/// file located lies in `program_path`, the handling asks for the tasks and
/// then for the one build of `program_path`, and whatever is reported
/// afterwards it asks for no further build.
pub proof fn lemma_one_build_per_program(
    tasks: Seq<TaskView>,
    outcomes: Seq<OutcomeView>,
    later: Seq<OutcomeView>,
    program_path: Seq<char>,
)
    requires
        tasks.len() > 0,
        outcomes.len() == tasks.len(),
        forall|k: int|
            0 <= k < outcomes.len() ==> outcomes[k] == OutcomeView::Done || outcomes[k]
                == OutcomeView::Located(program_path),
        outcomes.contains(OutcomeView::Located(program_path)),
    ensures
        ({
            let started = spec_batch_step(spec_batch(tasks), OutcomeView::Done).0;
            let built = spec_after(started, outcomes);
            &&& spec_batch_step(spec_batch(tasks), OutcomeView::Done).1 == Some(tasks[0])
            &&& spec_asked(started, outcomes) == tasks.subrange(1, tasks.len() as int).push(
                TaskView::Build(program_path),
            )
            &&& spec_asked(built, later) == Seq::<TaskView>::empty()
        }),
{
    let started = spec_batch_step(spec_batch(tasks), OutcomeView::Done).0;
    lemma_tasks_run(started, outcomes);
    lemma_add_located_same(Seq::empty(), outcomes, program_path);
    let built = spec_after(started, outcomes);
    assert(seq![program_path].no_duplicates());
    assert(built.programs == seq![program_path]);
    lemma_builds_follow(built, later);
    assert(spec_asked(built, later) =~= Seq::<TaskView>::empty());
    assert(spec_first_build(seq![program_path]) =~= seq![TaskView::Build(program_path)]);
    assert(tasks.subrange(1, tasks.len() as int) + seq![TaskView::Build(program_path)]
        =~= tasks.subrange(1, tasks.len() as int).push(TaskView::Build(program_path)));
}

} // verus!
