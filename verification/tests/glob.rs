use watchso::glob::{glob, GlobError};

fn strings(items: &[&str]) -> Vec<String> {
    items.iter().map(|item| item.to_string()).collect()
}

#[test]
fn glob_selects_included_entries() {
    let entries = strings(&[
        "/ws/programs/a",
        "/ws/programs/a/src",
        "/ws/programs/b",
        "/ws/tools",
        "/ws/Cargo.toml",
    ]);
    let found = glob("/ws", &entries, &strings(&["programs/*"]), &strings(&[]), true).unwrap();
    assert_eq!(found, vec!["/ws/programs/a", "/ws/programs/b"]);
}

#[test]
fn glob_drops_excluded_entries() {
    let entries = strings(&["/ws/programs/a", "/ws/programs/b", "/ws/programs/c"]);
    let found = glob(
        "/ws",
        &entries,
        &strings(&["programs/*"]),
        &strings(&["programs/b"]),
        true,
    )
    .unwrap();
    assert_eq!(found, vec!["/ws/programs/a", "/ws/programs/c"]);
}

#[test]
fn glob_without_literal_separator_crosses_directories() {
    let entries = strings(&["/p/src/lib.rs", "/p/src/state/mod.rs", "/p/src/notes.txt"]);
    let deep = glob("/p/src", &entries, &strings(&["*.rs"]), &strings(&[]), false).unwrap();
    assert_eq!(deep, vec!["/p/src/lib.rs", "/p/src/state/mod.rs"]);
    let flat = glob("/p/src", &entries, &strings(&["*.rs"]), &strings(&[]), true).unwrap();
    assert_eq!(flat, vec!["/p/src/lib.rs"]);
}

#[test]
fn glob_without_include_globs_selects_nothing() {
    let entries = strings(&["/ws/a", "/ws/b"]);
    let found = glob("/ws", &entries, &strings(&[]), &strings(&[]), true).unwrap();
    assert!(found.is_empty());
}

#[test]
fn glob_passes_over_entries_outside_the_base() {
    let entries = strings(&["/elsewhere/programs/a", "/ws/programs/a"]);
    let found = glob("/ws", &entries, &strings(&["programs/*"]), &strings(&[]), true).unwrap();
    assert_eq!(found, vec!["/ws/programs/a"]);
}

#[test]
fn glob_reports_the_first_malformed_include_glob() {
    let entries = strings(&["/ws/a"]);
    let result = glob("/ws", &entries, &strings(&["a", "{b", "[c"]), &strings(&["{d"]), true);
    assert!(matches!(result, Err(GlobError::Pattern(pattern)) if pattern == "{b"));
}

#[test]
fn glob_reports_a_malformed_exclude_glob() {
    let entries = strings(&["/ws/a"]);
    let result = glob("/ws", &entries, &strings(&["a"]), &strings(&["ok", "{d"]), true);
    assert!(matches!(result, Err(GlobError::Pattern(pattern)) if pattern == "{d"));
}
