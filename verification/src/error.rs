//! Errors that the library reports.

use vstd::prelude::*;
use vstd::string::*;

verus! {

/// What can go wrong while setting up or handling a change.
#[derive(Debug)]
pub enum WatchError {
    /// The directory holds no project that the library recognises.
    InvalidProgramDirectory(String),
    /// A required command is not installed.
    CommandNotFound(&'static str),
    /// The keypair's address could not be read, most likely because the file is malformed.
    CouldNotGetKeypair(String),
}

impl WatchError {
    /// The text that `message` produces.
    pub open spec fn spec_message(self) -> Seq<char> {
        match self {
            WatchError::InvalidProgramDirectory(path) => "Invalid program directory: `"@ + path@
                + "`"@,
            WatchError::CommandNotFound(command) => "Command not found: `"@ + command@ + "`"@,
            WatchError::CouldNotGetKeypair(reason) => "Could not get keypair file: `"@ + reason@
                + "`"@,
        }
    }

    /// The line shown to the user for this error.
    pub fn message(&self) -> (r: String)
        ensures
            r@ == self.spec_message(),
    {
        let (prefix, detail): (&str, &str) = match self {
            WatchError::InvalidProgramDirectory(path) => (
                "Invalid program directory: `",
                path.as_str(),
            ),
            WatchError::CommandNotFound(command) => ("Command not found: `", *command),
            WatchError::CouldNotGetKeypair(reason) => (
                "Could not get keypair file: `",
                reason.as_str(),
            ),
        };
        let mut out = String::from_str(prefix);
        out.append(detail);
        out.append("`");
        out
    }
}

} // verus!
