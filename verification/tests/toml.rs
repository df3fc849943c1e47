use watchso::toml::{cargo_toml_path, read_cargo_toml};

#[test]
fn manifest_of_a_package() {
    let manifest = read_cargo_toml(
        "[package]\nname = \"hello-world\"\nversion = \"0.1.0\"\nedition = \"2021\"\n",
    )
    .unwrap();
    assert_eq!(manifest.package, Some("hello-world".to_owned()));
    assert!(manifest.workspace.is_none());
}

#[test]
fn manifest_of_a_workspace() {
    let manifest = read_cargo_toml(
        "[workspace]\nmembers = [\"programs/*\", \"tools\"]\nexclude = [\"programs/old\"]\n",
    )
    .unwrap();
    assert_eq!(manifest.package, None);
    let workspace = manifest.workspace.unwrap();
    assert_eq!(workspace.members, vec!["programs/*", "tools"]);
    assert_eq!(workspace.exclude, vec!["programs/old"]);
}

#[test]
fn manifest_of_a_workspace_without_lists() {
    let manifest = read_cargo_toml("[workspace]\n").unwrap();
    let workspace = manifest.workspace.unwrap();
    assert!(workspace.members.is_empty());
    assert!(workspace.exclude.is_empty());
}

#[test]
fn text_that_is_no_manifest() {
    assert!(read_cargo_toml("[package\nname = ").is_err());
    assert!(read_cargo_toml("[package]\nversion = \"0.1.0\"\n").is_err());
}

#[test]
fn manifest_lies_in_the_project_directory() {
    let expected = std::path::Path::new("/work/project").join("Cargo.toml");
    assert_eq!(cargo_toml_path("/work/project"), expected.to_str().unwrap());
}
