use watchso::action::{Event, WAction};
use watchso::batch::{Batch, BatchPhase, Outcome};
use watchso::framework::{Declaration, Task};

fn batch(paths: &[&str]) -> Batch {
    let event = Event { paths: paths.iter().map(|p| p.to_string()).collect(), signals: Vec::new() };
    Batch::new(Declaration::Rust, &WAction::new(vec![event]))
}

fn located(path: &str) -> Outcome {
    Outcome::Located(path.to_owned())
}

fn is_build(task: &Option<Task>, expected: &str) -> bool {
    matches!(task, Some(Task::Build(path)) if path == expected)
}

#[test]
fn files_of_one_program_give_one_build() {
    let mut batch = batch(&["a/src/lib.rs", "a/src/state.rs", "a/Cargo.toml"]);
    assert_eq!(batch.phase(), BatchPhase::Start);
    assert!(matches!(batch.step(Outcome::Done), Some(Task::Locate(path)) if path == "a/src/lib.rs"));
    assert!(matches!(batch.step(located("/ws/a")), Some(Task::Locate(path)) if path == "a/src/state.rs"));
    assert!(matches!(batch.step(located("/ws/a")), Some(Task::Locate(path)) if path == "a/Cargo.toml"));
    assert!(is_build(&batch.step(located("/ws/a")), "/ws/a"));
    assert_eq!(batch.phase(), BatchPhase::Builds);
    assert!(batch.step(Outcome::Done).is_none());
    assert_eq!(batch.phase(), BatchPhase::Finished);
    assert!(batch.step(Outcome::Done).is_none());
}

#[test]
fn each_program_is_built_once() {
    let mut batch = batch(&["b/x.rs", "a/x.rs", "b/y.rs", "c/x.rs", "a/y.rs"]);
    batch.step(Outcome::Done);
    batch.step(located("/ws/b"));
    batch.step(located("/ws/a"));
    batch.step(located("/ws/b"));
    batch.step(located("/ws/c"));
    assert!(is_build(&batch.step(located("/ws/a")), "/ws/b"));
    assert!(is_build(&batch.step(Outcome::Done), "/ws/a"));
    assert!(is_build(&batch.step(Outcome::Done), "/ws/c"));
    assert!(batch.step(Outcome::Done).is_none());
    assert_eq!(batch.phase(), BatchPhase::Finished);
}

#[test]
fn deployments_and_updates_come_before_the_builds() {
    let mut batch = batch(&["a/x.rs", "deploy/a.so", "deploy/a-keypair.json", "readme.md"]);
    assert!(matches!(batch.step(Outcome::Done), Some(Task::Locate(_))));
    assert!(matches!(batch.step(located("/ws/a")), Some(Task::Deploy(path)) if path == "deploy/a.so"));
    assert!(matches!(batch.step(Outcome::Done), Some(Task::UpdateProgramId(path))
        if path == "deploy/a-keypair.json"));
    assert!(is_build(&batch.step(Outcome::Done), "/ws/a"));
    assert!(batch.step(Outcome::Done).is_none());
}

#[test]
fn a_failed_task_abandons_the_batch() {
    let mut batch = batch(&["a/x.rs", "deploy/a.so", "b/x.rs"]);
    batch.step(Outcome::Done);
    assert!(matches!(batch.step(located("/ws/a")), Some(Task::Deploy(_))));
    assert!(batch.step(Outcome::Failed).is_none());
    assert_eq!(batch.phase(), BatchPhase::Abandoned);
    assert!(batch.step(Outcome::Done).is_none());
    assert_eq!(batch.phase(), BatchPhase::Abandoned);
}

#[test]
fn a_failed_build_abandons_the_batch() {
    let mut batch = batch(&["a/x.rs", "b/x.rs"]);
    batch.step(Outcome::Done);
    batch.step(located("/ws/a"));
    assert!(is_build(&batch.step(located("/ws/b")), "/ws/a"));
    assert!(batch.step(Outcome::Failed).is_none());
    assert_eq!(batch.phase(), BatchPhase::Abandoned);
}

#[test]
fn a_batch_without_files_that_matter_is_over_at_once() {
    let mut batch = batch(&["readme.md", "Makefile"]);
    assert!(batch.step(Outcome::Done).is_none());
    assert_eq!(batch.phase(), BatchPhase::Finished);
}

#[test]
fn seahorse_sources_are_built_as_they_come() {
    let event = Event {
        paths: vec!["programs_py/a.py".to_owned(), "programs_py/b.py".to_owned()],
        signals: Vec::new(),
    };
    let mut batch = Batch::new(Declaration::Seahorse, &WAction::new(vec![event]));
    assert!(is_build(&batch.step(Outcome::Done), "programs_py/a.py"));
    assert!(is_build(&batch.step(Outcome::Done), "programs_py/b.py"));
    assert!(batch.step(Outcome::Done).is_none());
    assert_eq!(batch.phase(), BatchPhase::Finished);
}
