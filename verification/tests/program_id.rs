use watchso::framework::Declaration;
use watchso::program_id::{updated, ProgramIdSearch, SearchEvent, SearchStep};

fn join(base: &str, rest: &[&str]) -> String {
    let mut path = std::path::PathBuf::from(base);
    for part in rest {
        path.push(part);
    }
    path.to_str().unwrap().to_owned()
}

fn is_read(step: &SearchStep, expected: &str) -> bool {
    matches!(step, SearchStep::Read(path) if path == expected)
}

#[test]
fn lib_rs_is_tried_first() {
    let mut search = ProgramIdSearch::new(Declaration::Rust, "/ws/programs/a", "New");
    let step = search.step(SearchEvent::Nothing);
    assert!(is_read(&step, &join("/ws/programs/a", &["src", "lib.rs"])));
    let step = search.step(SearchEvent::Content("declare_id!(\"Old\");\n".to_owned()));
    assert!(matches!(&step, SearchStep::Write(path, content)
        if *path == join("/ws/programs/a", &["src", "lib.rs"]) && content == "declare_id!(\"New\");\n"));
    assert!(search.is_finished());
    assert!(matches!(search.step(SearchEvent::Nothing), SearchStep::Done));
}

#[test]
fn other_sources_are_tried_until_one_changes() {
    let src = join("/p", &["src"]);
    let mut search = ProgramIdSearch::new(Declaration::Rust, "/p", "New");
    search.step(SearchEvent::Nothing);
    let step = search.step(SearchEvent::Content("pub mod id;\n".to_owned()));
    assert!(matches!(&step, SearchStep::ListSources(dir) if *dir == src));
    let entries = vec![
        join(&src, &["lib.rs"]),
        join(&src, &["notes.txt"]),
        join(&src, &["state", "mod.rs"]),
        join(&src, &["id.rs"]),
        join(&src, &["late.rs"]),
    ];
    let step = search.step(SearchEvent::Sources(entries));
    assert!(is_read(&step, &join(&src, &["lib.rs"])));
    let step = search.step(SearchEvent::Content("pub mod id;\n".to_owned()));
    assert!(is_read(&step, &join(&src, &["state", "mod.rs"])));
    let step = search.step(SearchEvent::Content("declare_id!(\"New\");\n".to_owned()));
    assert!(is_read(&step, &join(&src, &["id.rs"])));
    let step = search.step(SearchEvent::Content("crate::declare_id!(\"Old\");\n".to_owned()));
    assert!(matches!(&step, SearchStep::Write(path, content)
        if *path == join(&src, &["id.rs"]) && content == "crate::declare_id!(\"New\");\n"));
    assert!(search.is_finished());
}

#[test]
fn a_search_without_a_declaration_ends_with_nothing() {
    let src = join("/p", &["src"]);
    let mut search = ProgramIdSearch::new(Declaration::Rust, "/p", "New");
    search.step(SearchEvent::Nothing);
    search.step(SearchEvent::Content(String::new()));
    let step = search.step(SearchEvent::Sources(vec![join(&src, &["a.rs"])]));
    assert!(is_read(&step, &join(&src, &["a.rs"])));
    let step = search.step(SearchEvent::Content("fn f() {}\n".to_owned()));
    assert!(matches!(step, SearchStep::Done));
    assert!(search.is_finished());
}

#[test]
fn a_search_without_sources_ends_with_nothing() {
    let mut search = ProgramIdSearch::new(Declaration::Rust, "/p", "New");
    search.step(SearchEvent::Nothing);
    search.step(SearchEvent::Content(String::new()));
    assert!(matches!(search.step(SearchEvent::Sources(Vec::new())), SearchStep::Done));
    assert!(search.is_finished());
}

#[test]
fn an_unreadable_file_ends_the_search() {
    let mut search = ProgramIdSearch::new(Declaration::Rust, "/p", "New");
    search.step(SearchEvent::Nothing);
    assert!(matches!(search.step(SearchEvent::Nothing), SearchStep::Done));
    assert!(search.is_finished());

    let src = join("/p", &["src"]);
    let mut search = ProgramIdSearch::new(Declaration::Rust, "/p", "New");
    search.step(SearchEvent::Nothing);
    search.step(SearchEvent::Content(String::new()));
    search.step(SearchEvent::Sources(vec![join(&src, &["a.rs"]), join(&src, &["b.rs"])]));
    assert!(matches!(search.step(SearchEvent::Nothing), SearchStep::Done));
    assert!(search.is_finished());
}

#[test]
fn a_seahorse_program_declares_its_id_in_its_source() {
    let mut search = ProgramIdSearch::new(Declaration::Seahorse, "/ws/programs_py/a.py", "New");
    let step = search.step(SearchEvent::Nothing);
    assert!(is_read(&step, "/ws/programs_py/a.py"));
    let step = search.step(SearchEvent::Content("declare_id('Old')\n".to_owned()));
    assert!(matches!(&step, SearchStep::Write(path, content)
        if path == "/ws/programs_py/a.py" && content == "declare_id('New')\n"));

    let mut search = ProgramIdSearch::new(Declaration::Seahorse, "/ws/programs_py/a.py", "New");
    search.step(SearchEvent::Nothing);
    let step = search.step(SearchEvent::Content("declare_id('New')\n".to_owned()));
    assert!(matches!(step, SearchStep::Done));
    assert!(search.is_finished());
}

#[test]
fn updated_goes_by_the_declaration() {
    assert_eq!(
        updated(Declaration::Rust, "declare_id!(\"Old\");", "New"),
        Some("declare_id!(\"New\");".to_owned())
    );
    assert_eq!(updated(Declaration::Seahorse, "declare_id!(\"Old\");", "New"), None);
    assert_eq!(
        updated(Declaration::Seahorse, "declare_id(\"Old\")", "New"),
        Some("declare_id(\"New\")".to_owned())
    );
    assert_eq!(updated(Declaration::Rust, "declare_id(\"Old\")", "New"), None);
}
