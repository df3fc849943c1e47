use watchso::framework::{Framework, Task};
use watchso::frameworks::anchor::Anchor;
use watchso::initialize::{InitStep, InitTask, Initialization, Phase, Report, Stage, StageEnd};

fn deploy_dir() -> String {
    std::path::Path::new("/ws").join("target").join("deploy").to_str().unwrap().to_owned()
}

fn framework() -> Anchor {
    let mut anchor = Anchor::new("/ws");
    anchor.set_program_path("a", "/ws/programs/a");
    anchor.set_program_path("b-c", "/ws/programs/b-c");
    anchor
}

fn ended(step: &InitStep, stage: Stage, success: bool) -> bool {
    step.ended == Some(StageEnd { stage, success })
}

fn entries() -> Vec<String> {
    ["a-keypair.json", "a.so", "b_c.so", "stray-keypair.json", "notes.txt", "b_c-keypair.json"]
        .iter()
        .map(|name| format!("/ws/target/deploy/{}", name))
        .collect()
}

/// Takes the set-up through its first stages, up to the reading of the build output.
fn until_read(init: &mut Initialization, anchor: &Anchor) {
    init.step(anchor, Report::Done(true));
    init.step(anchor, Report::Done(true));
    init.step(anchor, Report::Done(true));
    init.step(anchor, Report::Done(true));
    let step = init.step(anchor, Report::Exists(true));
    assert!(matches!(step.next, Some(InitTask::ReadDeployDir(_))));
}

#[test]
fn stages_come_in_their_order() {
    let anchor = framework();
    let mut init = Initialization::new("/ws");
    assert_eq!(init.phase(), Phase::Start);

    let step = init.step(&anchor, Report::Done(false));
    assert!(step.ended.is_none());
    assert!(matches!(step.next, Some(InitTask::CheckToolset)));

    let step = init.step(&anchor, Report::Done(true));
    assert!(ended(&step, Stage::CheckToolset, true));
    assert!(matches!(step.next, Some(InitTask::MapProgramNames)));

    let step = init.step(&anchor, Report::Done(true));
    assert!(ended(&step, Stage::MapProgramNames, true));
    assert!(matches!(&step.next, Some(InitTask::StartValidator(origin)) if origin == "/ws"));

    let step = init.step(&anchor, Report::Done(true));
    assert!(ended(&step, Stage::StartValidator, true));
    assert!(matches!(&step.next, Some(InitTask::ProbeDeployDir(dir)) if *dir == deploy_dir()));

    let step = init.step(&anchor, Report::Exists(false));
    assert!(step.ended.is_none());
    assert!(matches!(&step.next, Some(InitTask::Setup(origin)) if origin == "/ws"));

    let step = init.step(&anchor, Report::Done(true));
    assert!(ended(&step, Stage::Setup, true));
    assert!(matches!(&step.next, Some(InitTask::ReadDeployDir(dir)) if *dir == deploy_dir()));

    let step = init.step(&anchor, Report::Entries(entries()));
    assert!(step.ended.is_none());
    assert!(matches!(step.next, Some(InitTask::Begin(Stage::UpdateProgramIds, 3))));

    let step = init.step(&anchor, Report::Done(true));
    assert!(step.ended.is_none());
    assert!(matches!(&step.next, Some(InitTask::Run(Task::UpdateProgramId(path)))
        if path == "/ws/target/deploy/a-keypair.json"));
    let step = init.step(&anchor, Report::Done(true));
    assert!(matches!(&step.next, Some(InitTask::Run(Task::UpdateProgramId(path)))
        if path == "/ws/target/deploy/stray-keypair.json"));
    let step = init.step(&anchor, Report::Done(true));
    assert!(matches!(&step.next, Some(InitTask::Run(Task::UpdateProgramId(path)))
        if path == "/ws/target/deploy/b_c-keypair.json"));
    assert_eq!(init.phase(), Phase::UpdateProgramIds);

    let step = init.step(&anchor, Report::Done(true));
    assert!(ended(&step, Stage::UpdateProgramIds, true));
    assert!(matches!(step.next, Some(InitTask::Begin(Stage::Build, 2))));

    let step = init.step(&anchor, Report::Done(true));
    assert!(matches!(&step.next, Some(InitTask::Run(Task::Build(path))) if path == "/ws/programs/a"));
    let step = init.step(&anchor, Report::Done(true));
    assert!(matches!(&step.next, Some(InitTask::Run(Task::Build(path))) if path == "/ws/programs/b-c"));

    let step = init.step(&anchor, Report::Done(true));
    assert!(ended(&step, Stage::Build, true));
    assert!(matches!(step.next, Some(InitTask::Begin(Stage::Deploy, 2))));

    let step = init.step(&anchor, Report::Done(true));
    assert!(matches!(&step.next, Some(InitTask::Run(Task::Deploy(path)))
        if path == "/ws/target/deploy/a.so"));
    let step = init.step(&anchor, Report::Done(true));
    assert!(matches!(&step.next, Some(InitTask::Run(Task::Deploy(path)))
        if path == "/ws/target/deploy/b_c.so"));

    let step = init.step(&anchor, Report::Done(true));
    assert!(ended(&step, Stage::Deploy, true));
    assert!(step.next.is_none());
    assert_eq!(init.phase(), Phase::Finished);
    assert!(!init.is_aborted());

    let step = init.step(&anchor, Report::Done(true));
    assert!(step.ended.is_none());
    assert!(step.next.is_none());
    assert_eq!(init.phase(), Phase::Finished);
}

#[test]
fn missing_tools_end_the_set_up() {
    let anchor = framework();
    let mut init = anchor.initialize();
    init.step(&anchor, Report::Done(true));
    let step = init.step(&anchor, Report::Done(false));
    assert!(ended(&step, Stage::CheckToolset, false));
    assert!(step.next.is_none());
    assert!(init.is_aborted());
    let step = init.step(&anchor, Report::Done(true));
    assert!(step.ended.is_none());
    assert!(step.next.is_none());
    assert!(init.is_aborted());
}

#[test]
fn later_failures_are_reported_and_passed_over() {
    let anchor = framework();
    let mut init = Initialization::new("/ws");
    init.step(&anchor, Report::Done(true));
    init.step(&anchor, Report::Done(true));
    let step = init.step(&anchor, Report::Done(false));
    assert!(ended(&step, Stage::MapProgramNames, false));
    assert!(matches!(step.next, Some(InitTask::StartValidator(_))));
    let step = init.step(&anchor, Report::Done(false));
    assert!(ended(&step, Stage::StartValidator, false));
    assert!(matches!(step.next, Some(InitTask::ProbeDeployDir(_))));
    let step = init.step(&anchor, Report::Done(false));
    assert!(matches!(step.next, Some(InitTask::Setup(_))));
    let step = init.step(&anchor, Report::Done(false));
    assert!(ended(&step, Stage::Setup, false));
    assert!(matches!(step.next, Some(InitTask::ReadDeployDir(_))));
    assert!(!init.is_aborted());
}

#[test]
fn an_existing_build_output_needs_no_first_build() {
    let anchor = framework();
    let mut init = Initialization::new("/ws");
    until_read(&mut init, &anchor);
    assert_eq!(init.phase(), Phase::ReadDeployDir);
}

#[test]
fn a_failed_item_fails_its_stage_only() {
    let anchor = framework();
    let mut init = Initialization::new("/ws");
    until_read(&mut init, &anchor);
    let step = init.step(&anchor, Report::Entries(entries()));
    assert!(matches!(step.next, Some(InitTask::Begin(Stage::UpdateProgramIds, 3))));
    init.step(&anchor, Report::Done(true));
    let step = init.step(&anchor, Report::Done(false));
    assert!(matches!(step.next, Some(InitTask::Run(Task::UpdateProgramId(_)))));
    init.step(&anchor, Report::Done(true));
    let step = init.step(&anchor, Report::Done(true));
    assert!(ended(&step, Stage::UpdateProgramIds, false));
    assert!(matches!(step.next, Some(InitTask::Begin(Stage::Build, 2))));
    init.step(&anchor, Report::Done(true));
    init.step(&anchor, Report::Done(true));
    let step = init.step(&anchor, Report::Done(true));
    assert!(ended(&step, Stage::Build, true));
    init.step(&anchor, Report::Done(true));
    init.step(&anchor, Report::Done(true));
    let step = init.step(&anchor, Report::Done(false));
    assert!(ended(&step, Stage::Deploy, false));
    assert!(step.next.is_none());
    assert_eq!(init.phase(), Phase::Finished);
}

#[test]
fn an_unreadable_build_output_leaves_nothing_to_do() {
    let anchor = framework();
    let mut init = Initialization::new("/ws");
    until_read(&mut init, &anchor);
    let step = init.step(&anchor, Report::Done(false));
    assert!(matches!(step.next, Some(InitTask::Begin(Stage::UpdateProgramIds, 0))));
    let step = init.step(&anchor, Report::Done(true));
    assert!(ended(&step, Stage::UpdateProgramIds, true));
    assert!(matches!(step.next, Some(InitTask::Begin(Stage::Build, 0))));
    let step = init.step(&anchor, Report::Done(true));
    assert!(ended(&step, Stage::Build, true));
    assert!(matches!(step.next, Some(InitTask::Begin(Stage::Deploy, 0))));
    let step = init.step(&anchor, Report::Done(true));
    assert!(ended(&step, Stage::Deploy, true));
    assert!(step.next.is_none());
}

#[test]
fn programs_of_keypairs_and_compiled_programs_are_built_once() {
    let anchor = framework();
    let mut init = Initialization::new("/ws");
    until_read(&mut init, &anchor);
    let found: Vec<String> = ["b_c.so", "a-keypair.json", "a.so"]
        .iter()
        .map(|name| format!("/ws/target/deploy/{}", name))
        .collect();
    let step = init.step(&anchor, Report::Entries(found));
    assert!(matches!(step.next, Some(InitTask::Begin(Stage::UpdateProgramIds, 1))));
    init.step(&anchor, Report::Done(true));
    let step = init.step(&anchor, Report::Done(true));
    assert!(matches!(step.next, Some(InitTask::Begin(Stage::Build, 2))));
    let step = init.step(&anchor, Report::Done(true));
    assert!(matches!(&step.next, Some(InitTask::Run(Task::Build(path))) if path == "/ws/programs/a"));
    let step = init.step(&anchor, Report::Done(true));
    assert!(matches!(&step.next, Some(InitTask::Run(Task::Build(path))) if path == "/ws/programs/b-c"));
}

#[test]
fn stages_have_their_messages() {
    let progress = Stage::StartValidator.progress();
    assert_eq!(progress.start_message(), Some("Starting Solana test validator..."));
    assert_eq!(progress.finish(true).message, Some("Running Solana test validator"));
    assert_eq!(progress.finish(false).message, Some("Could not start Solana test validator"));
    let progress = Stage::Setup.progress();
    assert_eq!(progress.start_message(), Some("Setting up..."));
    assert_eq!(progress.finish(true).message, Some("Setup success"));
    assert_eq!(progress.finish(false).message, Some("Setup error"));
    let progress = Stage::UpdateProgramIds.progress();
    assert_eq!(progress.start_message(), Some("Checking program ids..."));
    assert_eq!(progress.finish(true).message, Some("Program ids are up to date"));
    assert_eq!(progress.finish(false).message, Some("Couldn't update program ids"));
    let progress = Stage::Build.progress();
    assert_eq!(progress.start_message(), Some("Building..."));
    assert_eq!(progress.finish(true).message, Some("Built programs"));
    assert_eq!(progress.finish(false).message, Some("Couldn't build programs"));
    let progress = Stage::Deploy.progress();
    assert_eq!(progress.start_message(), Some("Deploying programs..."));
    assert_eq!(progress.finish(true).message, Some("Deployed programs"));
    assert_eq!(progress.finish(false).message, Some("Couldn't deploy programs"));
    assert!(!progress.finish(true).clear);
}

#[test]
fn the_first_stages_run_silently() {
    for stage in [Stage::CheckToolset, Stage::MapProgramNames] {
        let progress = stage.progress();
        assert_eq!(progress.start_message(), None);
        assert_eq!(progress.finish(true).message, None);
        assert_eq!(progress.finish(false).message, None);
    }
}
