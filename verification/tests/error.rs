use watchso::error::WatchError;

#[test]
fn command_not_found_message() {
    let err = WatchError::CommandNotFound("anchor");
    assert_eq!(err.message(), "Command not found: `anchor`");
}

#[test]
fn invalid_program_directory_message() {
    let err = WatchError::InvalidProgramDirectory("/tmp/empty".to_owned());
    assert_eq!(err.message(), "Invalid program directory: `/tmp/empty`");
}

#[test]
fn could_not_get_keypair_message() {
    let err = WatchError::CouldNotGetKeypair("bad file".to_owned());
    assert_eq!(err.message(), "Could not get keypair file: `bad file`");
}
