use watchso::command::ReadableOutput;
use watchso::error::WatchError;
use watchso::framework_utils::{
    create_globset_filterer, deploy_dir, filter_workspace_programs, get_bpf_or_sbf,
    get_program_name_path_hashmap, get_watch_pathset, locate_project_command, program_dirs,
    program_path_from_output, pubkey_command, pubkey_from_output, test_validator_command,
    update_file_program_id_with, update_rust_program_id, Candidate, ProgramName, ProjectMap,
};
use watchso::toml::{Manifest, Workspace};

fn strings(items: &[&str]) -> Vec<String> {
    items.iter().map(|item| item.to_string()).collect()
}

#[test]
fn program_name_from_keypair_path() {
    let name = ProgramName::from_keypair_path("target/deploy/hello_world-keypair.json").unwrap();
    assert_eq!(name.original(), "hello_world");
    assert_eq!(name.kebab_case(), "hello-world");
}

#[test]
fn program_name_from_elf_path() {
    let name = ProgramName::from_elf_path("/abs/target/deploy/my_program.so").unwrap();
    assert_eq!(name.original(), "my_program");
}

#[test]
fn program_name_needs_the_suffix() {
    assert!(ProgramName::from_keypair_path("target/deploy/hello.json").is_none());
    assert!(ProgramName::from_keypair_path("target/deploy/hello.so").is_none());
    assert!(ProgramName::from_elf_path("target/deploy/hello-keypair.json").is_none());
    assert!(ProgramName::from_elf_path("target/deploy/..").is_none());
    assert!(ProgramName::from_elf_path("").is_none());
}

#[test]
fn program_name_loses_every_repetition_of_the_suffix() {
    let name = ProgramName::from_elf_path("deploy/twice.so.so").unwrap();
    assert_eq!(name.original(), "twice");
}

#[test]
fn program_name_new_keeps_the_name() {
    let name = ProgramName::new("a_b-c_d");
    assert_eq!(name.original(), "a_b-c_d");
    assert_eq!(name.kebab_case(), "a-b-c-d");
}

#[test]
fn project_map_finds_a_program_by_the_name_its_files_carry() {
    let mut map = ProjectMap::new();
    map.set_program_path("hello_world", "/ws/programs/hello_world");
    assert_eq!(
        map.get_program_path("/ws/target/deploy/hello_world-keypair.json"),
        Some("/ws/programs/hello_world".to_owned())
    );
    assert_eq!(
        map.get_program_path("/ws/target/deploy/hello_world.so"),
        Some("/ws/programs/hello_world".to_owned())
    );
}

#[test]
fn project_map_falls_back_to_kebab_case() {
    let mut map = ProjectMap::new();
    map.set_program_path("hello-world", "/ws/programs/hello-world");
    assert_eq!(
        map.get_program_path("/ws/target/deploy/hello_world-keypair.json"),
        Some("/ws/programs/hello-world".to_owned())
    );
    assert_eq!(
        map.get_program_path("/ws/target/deploy/hello_world.so"),
        Some("/ws/programs/hello-world".to_owned())
    );
}

#[test]
fn project_map_prefers_the_name_as_carried() {
    let mut map = ProjectMap::new();
    map.set_program_path("hello-world", "/ws/kebab");
    map.set_program_path("hello_world", "/ws/snake");
    assert_eq!(map.get_program_path("deploy/hello_world.so"), Some("/ws/snake".to_owned()));
}

#[test]
fn project_map_finds_a_snake_case_program_by_a_kebab_case_file() {
    let mut map = ProjectMap::new();
    map.set_program_path("hello_world", "/ws/programs/hello_world");
    assert_eq!(
        map.get_program_path("/ws/target/deploy/hello-world-keypair.json"),
        Some("/ws/programs/hello_world".to_owned())
    );
    assert_eq!(
        map.get_program_path("/ws/target/deploy/hello-world.so"),
        Some("/ws/programs/hello_world".to_owned())
    );
}

#[test]
fn project_map_folds_mixed_separators() {
    let mut map = ProjectMap::new();
    map.set_program_path("my_big-program", "/ws/programs/mixed");
    assert_eq!(
        map.get_program_path("deploy/my_big_program.so"),
        Some("/ws/programs/mixed".to_owned())
    );
    assert_eq!(
        map.get_program_path("deploy/my-big-program-keypair.json"),
        Some("/ws/programs/mixed".to_owned())
    );
    assert_eq!(
        map.get_program_path("deploy/my-big_program.so"),
        Some("/ws/programs/mixed".to_owned())
    );
    assert_eq!(map.get_program_path("deploy/mybig_program.so"), None);
}

#[test]
fn project_map_finds_the_first_entered_of_several_folded_names() {
    let mut map = ProjectMap::new();
    map.set_program_path("a-b_c", "/ws/first");
    map.set_program_path("a_b-c", "/ws/second");
    assert_eq!(map.get_program_path("deploy/a_b_c.so"), Some("/ws/first".to_owned()));
    assert_eq!(map.get_program_path("deploy/a-b-c.so"), Some("/ws/first".to_owned()));
    assert_eq!(map.get_program_path("deploy/a_b-c.so"), Some("/ws/second".to_owned()));
    map.set_program_path("a-b_c", "/ws/moved");
    assert_eq!(map.get_program_path("deploy/a_b_c.so"), Some("/ws/moved".to_owned()));
}

#[test]
fn project_map_tries_the_kebab_case_name_before_other_folded_names() {
    let mut map = ProjectMap::new();
    map.set_program_path("a-b_c", "/p1");
    map.set_program_path("a-b-c", "/p2");
    assert_eq!(map.get_program_path("deploy/a_b_c.so"), Some("/p2".to_owned()));
    assert_eq!(map.get_program_path("deploy/a_b_c-keypair.json"), Some("/p2".to_owned()));
    assert_eq!(map.get_program_path("deploy/a-b_c.so"), Some("/p1".to_owned()));
    assert_eq!(map.get_program_path("deploy/a_b-c.so"), Some("/p2".to_owned()));
}

#[test]
fn project_map_does_not_find_unrelated_names() {
    let mut map = ProjectMap::new();
    map.set_program_path("hello_world", "/ws/programs/hello_world");
    assert_eq!(map.get_program_path("/ws/target/deploy/other-keypair.json"), None);
    assert_eq!(map.get_program_path("/ws/target/deploy/other.so"), None);
    assert_eq!(map.get_program_path("/ws/target/deploy/helloworld.so"), None);
    assert_eq!(map.get_program_path("/ws/target/deploy/hello.world.so"), None);
    assert_eq!(map.get_program_path("/ws/target/deploy/Hello_World.so"), None);
    assert_eq!(map.get_program_path("/ws/programs/hello_world/src/lib.rs"), None);
    assert_eq!(map.get_program_path("/ws/target/deploy/hello_world"), None);
    assert_eq!(ProjectMap::new().get_program_path("/ws/target/deploy/hello_world.so"), None);
}

#[test]
fn project_map_overwrites_an_entry() {
    let mut map = ProjectMap::new();
    map.set_program_path("a", "/one");
    map.set_program_path("b", "/two");
    map.set_program_path("a", "/three");
    assert_eq!(map.get_program_path_from_name("a"), Some("/three".to_owned()));
    assert_eq!(map.get_program_path_from_name("b"), Some("/two".to_owned()));
    assert_eq!(map.get_program_path_from_name("c"), None);
}

const LIB_RS: &str = "use anchor_lang::prelude::*;\n\ndeclare_id!(\"Fg6PaFpoGXkYsidMpWTK6W2BeZ7FEfcYkg476zPFsLnS\");\n\n#[program]\npub mod hello {}\n";

#[test]
fn update_rust_program_id_replaces_the_declared_id() {
    let updated = update_rust_program_id(LIB_RS, "7Kp3n").unwrap();
    assert_eq!(
        updated,
        "use anchor_lang::prelude::*;\n\ndeclare_id!(\"7Kp3n\");\n\n#[program]\npub mod hello {}\n"
    );
}

#[test]
fn update_rust_program_id_is_idempotent() {
    let once = update_rust_program_id(LIB_RS, "7Kp3nPq").unwrap();
    assert_eq!(update_rust_program_id(&once, "7Kp3nPq"), None);
}

#[test]
fn update_rust_program_id_changes_nothing_else() {
    let content = "// ä comment with declare_id!(\"Old\") inside\nsolana_program::declare_id!(\"Old\");\ndeclare_id!(\"Second\");\n";
    let updated = update_rust_program_id(content, "New1").unwrap();
    assert_eq!(
        updated,
        "// ä comment with declare_id!(\"Old\") inside\nsolana_program::declare_id!(\"New1\");\ndeclare_id!(\"Second\");\n"
    );
    let start = content.find("Old\");\ndeclare").unwrap();
    assert_eq!(&updated.as_bytes()[..start], &content.as_bytes()[..start]);
    assert_eq!(&updated.as_bytes()[start + 4..], &content.as_bytes()[start + 3..]);
}

#[test]
fn update_rust_program_id_fills_an_empty_declaration() {
    assert_eq!(
        update_rust_program_id("declare_id!(\"\");", "Abc").unwrap(),
        "declare_id!(\"Abc\");"
    );
}

#[test]
fn update_rust_program_id_needs_a_declaration_at_a_line_start() {
    assert_eq!(update_rust_program_id("fn main() {}\n", "Abc"), None);
    assert_eq!(update_rust_program_id("  declare_id!(\"Old\");\n", "Abc"), None);
    assert_eq!(update_rust_program_id("declare_id(\"Old\")\n", "Abc"), None);
    assert_eq!(update_rust_program_id("", "Abc"), None);
}

#[test]
fn update_with_a_given_range() {
    assert_eq!(
        update_file_program_id_with("id = 'old'", "new", Some((6, 9))),
        Some("id = 'new'".to_owned())
    );
    assert_eq!(update_file_program_id_with("id = 'old'", "old", Some((6, 9))), None);
    assert_eq!(update_file_program_id_with("id = 'old'", "new", None), None);
    assert_eq!(
        update_file_program_id_with("ä=ö", "xyz", Some((3, 5))),
        Some("ä=xyz".to_owned())
    );
    assert_eq!(
        update_file_program_id_with("abc", "x", Some((1, 1))),
        Some("axbc".to_owned())
    );
    assert_eq!(update_file_program_id_with("abc", "", Some((3, 3))), None);
}

#[test]
fn pubkey_command_names_the_keypair() {
    let command = pubkey_command("target/deploy/hello-keypair.json");
    assert_eq!(command.program(), "solana");
    assert_eq!(command.args(), &vec!["address", "-k", "target/deploy/hello-keypair.json"]);
    assert_eq!(command.dir(), None);
}

#[test]
fn pubkey_is_the_trimmed_output() {
    let output = ReadableOutput::new(true, b"7Kp3n\n".to_vec(), Vec::new());
    assert_eq!(pubkey_from_output(&output).unwrap(), "7Kp3n");
    let output = ReadableOutput::new(true, b"7Kp3n".to_vec(), b"warning".to_vec());
    assert_eq!(pubkey_from_output(&output).unwrap(), "7Kp3n");
}

#[test]
fn pubkey_of_a_failed_command() {
    let output = ReadableOutput::new(false, b"7Kp3n\n".to_vec(), b"bad keypair".to_vec());
    let error = pubkey_from_output(&output).unwrap_err();
    assert!(matches!(&error, WatchError::CouldNotGetKeypair(reason) if reason == "bad keypair"));
    assert_eq!(error.message(), "Could not get keypair file: `bad keypair`");
}

#[test]
fn locate_project_runs_in_the_directory_of_the_file() {
    let command = locate_project_command("/ws/programs/a/src/lib.rs").unwrap();
    assert_eq!(command.program(), "cargo");
    assert_eq!(command.args(), &vec!["locate-project", "--message-format", "plain"]);
    assert_eq!(command.dir(), Some("/ws/programs/a/src"));
    assert!(locate_project_command("/").is_none());
    assert!(locate_project_command("").is_none());
}

#[test]
fn program_path_is_the_directory_of_the_manifest() {
    let output = ReadableOutput::new(true, b"/ws/programs/a/Cargo.toml\n".to_vec(), Vec::new());
    assert_eq!(program_path_from_output(&output).unwrap(), "/ws/programs/a");
}

#[test]
fn program_path_of_a_failed_command() {
    let output = ReadableOutput::new(false, b"/ws/programs/a/Cargo.toml\n".to_vec(), Vec::new());
    let error = program_path_from_output(&output).unwrap_err();
    assert!(matches!(error, WatchError::CommandNotFound("cargo locate-project")));
    let output = ReadableOutput::new(true, b"\n".to_vec(), Vec::new());
    let error = program_path_from_output(&output).unwrap_err();
    assert!(matches!(error, WatchError::CommandNotFound("cargo locate-project")));
}

#[test]
fn test_validator_runs_in_the_origin() {
    let command = test_validator_command("/ws");
    assert_eq!(command.program(), "solana-test-validator");
    assert!(command.args().is_empty());
    assert_eq!(command.dir(), Some("/ws"));
}

#[test]
fn build_tool_prefers_sbf() {
    assert_eq!(get_bpf_or_sbf(true, true).unwrap(), "cargo build-sbf");
    assert_eq!(get_bpf_or_sbf(true, false).unwrap(), "cargo build-sbf");
    assert_eq!(get_bpf_or_sbf(false, true).unwrap(), "cargo build-bpf");
    let error = get_bpf_or_sbf(false, false).unwrap_err();
    assert!(matches!(error, WatchError::CommandNotFound("solana")));
    assert_eq!(error.message(), "Command not found: `solana`");
}

#[test]
fn deploy_dir_lies_under_target() {
    let expected = std::path::Path::new("/ws").join("target").join("deploy");
    assert_eq!(deploy_dir("/ws"), expected.to_str().unwrap());
}

#[test]
fn watch_pathset_of_a_package() {
    let expected = std::path::Path::new("target").join("deploy");
    assert_eq!(get_watch_pathset(None), vec![expected.to_str().unwrap(), "src"]);
}

#[test]
fn watch_pathset_of_a_workspace() {
    let expected = std::path::Path::new("target").join("deploy");
    assert_eq!(
        get_watch_pathset(Some(strings(&["/ws/programs/a", "/ws/programs/b"]))),
        vec![expected.to_str().unwrap(), "/ws/programs/a", "/ws/programs/b"]
    );
    assert_eq!(get_watch_pathset(Some(Vec::new())), vec![expected.to_str().unwrap()]);
}

#[test]
fn filterer_always_ignores_build_outputs() {
    let config = create_globset_filterer(
        &strings(&["**/*.rs"]),
        &strings(&["**/tmp/**"]),
        &strings(&["rs", "so"]),
    );
    assert_eq!(config.filters, vec!["**/*.rs"]);
    assert_eq!(
        config.ignores,
        vec![
            "**/*/target/**/*",
            "**/*/test-ledger/**/*",
            "**/*/node_modules/**/*",
            "**/tmp/**"
        ]
    );
    assert_eq!(config.extensions, vec!["rs", "so"]);
}

fn workspace(members: &[&str], exclude: &[&str]) -> Manifest {
    Manifest {
        package: None,
        workspace: Some(Workspace { members: strings(members), exclude: strings(exclude) }),
    }
}

#[test]
fn workspace_programs_are_filtered_by_members_and_exclude() {
    let entries = strings(&["/ws/programs/a", "/ws/programs/a/src", "/ws/programs/b", "/ws/app"]);
    let manifest = workspace(&["programs/*"], &["programs/b"]);
    let found = filter_workspace_programs("/ws", &manifest, &entries).unwrap();
    assert_eq!(found, Some(strings(&["/ws/programs/a"])));
}

#[test]
fn a_package_has_no_workspace_programs() {
    let manifest = Manifest { package: Some("solo".to_owned()), workspace: None };
    let found = filter_workspace_programs("/ws", &manifest, &strings(&["/ws/src"])).unwrap();
    assert_eq!(found, None);
}

#[test]
fn workspace_with_a_malformed_glob() {
    let manifest = workspace(&["programs/{"], &[]);
    assert!(filter_workspace_programs("/ws", &manifest, &strings(&["/ws/a"])).is_err());
}

#[test]
fn program_dirs_default_to_the_origin() {
    assert_eq!(program_dirs("/ws", None), vec!["/ws"]);
    assert_eq!(program_dirs("/ws", Some(strings(&["/ws/a", "/ws/b"]))), vec!["/ws/a", "/ws/b"]);
    assert!(program_dirs("/ws", Some(Vec::new())).is_empty());
}

#[test]
fn programs_are_the_packages_among_the_candidates() {
    let candidates = vec![
        Candidate {
            path: "/ws/a".to_owned(),
            manifest: Some(Manifest { package: Some("prog-a".to_owned()), workspace: None }),
        },
        Candidate { path: "/ws/b".to_owned(), manifest: None },
        Candidate { path: "/ws/c".to_owned(), manifest: Some(workspace(&[], &[])) },
        Candidate {
            path: "/ws/d".to_owned(),
            manifest: Some(Manifest { package: Some("prog_d".to_owned()), workspace: None }),
        },
    ];
    let programs = get_program_name_path_hashmap(&candidates);
    assert_eq!(programs.len(), 2);
    assert_eq!(programs[0].name, "prog-a");
    assert_eq!(programs[0].root_path, "/ws/a");
    assert_eq!(programs[1].name, "prog_d");
    assert_eq!(programs[1].root_path, "/ws/d");
}
