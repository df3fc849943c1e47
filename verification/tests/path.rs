use watchso::path::extension;

#[test]
fn extension_is_what_follows_the_last_dot() {
    assert_eq!(extension("programs/hello/src/lib.rs"), Some("rs".to_owned()));
    assert_eq!(extension("target/deploy/hello-keypair.json"), Some("json".to_owned()));
    assert_eq!(extension("archive.tar.gz"), Some("gz".to_owned()));
}

#[test]
fn extension_of_a_name_without_one() {
    assert_eq!(extension("Makefile"), None);
    assert_eq!(extension(".gitignore"), None);
    assert_eq!(extension("dir.d/file"), None);
    assert_eq!(extension(""), None);
    assert_eq!(extension("a/.."), None);
}

#[test]
fn extension_can_be_empty() {
    assert_eq!(extension("name."), Some(String::new()));
}

#[test]
fn extension_agrees_with_std() {
    for path in ["a/b.rs", ".hidden", ".hidden.toml", "x.y.z", "dir/", "dir.v2/", "a.so/.", "..", "/"] {
        let expected = std::path::Path::new(path)
            .extension()
            .and_then(|ext| ext.to_str())
            .map(|ext| ext.to_owned());
        assert_eq!(extension(path), expected, "{}", path);
    }
}
