//! The supported frameworks, and how a project's framework is recognised.

pub mod anchor;
pub mod native;
pub mod seahorse;

use crate::command::{lemma_has_word, spec_command, CommandLine, WCommand};
use crate::constants::{dirname, filename};
use crate::error::WatchError;
use crate::framework_utils::{spec_program_path, Programs, ProjectMap};
use crate::list::contains;
use crate::path::{file_name, path_file_name};
use vstd::prelude::*;
use vstd::string::*;

verus! {

/// The frameworks that the library knows.
#[derive(Clone, Copy, Debug, PartialEq, Eq, Structural)]
pub enum FrameworkKind {
    /// Seahorse: programs written in Python under `programs_py`.
    Seahorse,
    /// Anchor: a workspace with an `Anchor.toml`.
    Anchor,
    /// Native: a plain Cargo package or workspace.
    Native,
}

/// The framework of a project whose root directory holds `item_names`:
/// Seahorse where it holds `programs_py`, else Anchor where it holds
/// `Anchor.toml`, else native where it holds `Cargo.toml`.
pub open spec fn spec_framework(item_names: Seq<Seq<char>>) -> Option<FrameworkKind> {
    if item_names.contains(dirname::PROGRAMS_PY@) {
        Some(FrameworkKind::Seahorse)
    } else if item_names.contains(filename::ANCHOR_TOML@) {
        Some(FrameworkKind::Anchor)
    } else if item_names.contains(filename::CARGO_TOML@) {
        Some(FrameworkKind::Native)
    } else {
        None
    }
}

/// The framework of the project at `origin`, whose root directory holds the
/// files and directories `item_names`. Fails with `InvalidProgramDirectory`
/// where the directory holds no Solana project.
pub fn get_framework_from_path(origin: &str, item_names: &Vec<String>) -> (r: Result<
    FrameworkKind,
    WatchError,
>)
    ensures
        match r {
            Ok(kind) => spec_framework(item_names.deep_view()) == Some(kind),
            Err(error) => spec_framework(item_names.deep_view()) is None && (
            error matches WatchError::InvalidProgramDirectory(path) && path@ == origin@),
        },
{
    if contains(item_names, dirname::PROGRAMS_PY) {
        Ok(FrameworkKind::Seahorse)
    } else if contains(item_names, filename::ANCHOR_TOML) {
        Ok(FrameworkKind::Anchor)
    } else if contains(item_names, filename::CARGO_TOML) {
        Ok(FrameworkKind::Native)
    } else {
        Err(WatchError::InvalidProgramDirectory(String::from_str(origin)))
    }
}

/// The command that deploys the compiled program at `elf_path` with Anchor:
/// `anchor deploy -p <name>` where the program is known, `<name>` being the
/// last component of the program's path, and `anchor deploy` where it is not.
pub open spec fn spec_anchor_deploy(programs: Programs, elf_path: Seq<char>) -> CommandLine {
    match spec_program_path(programs, elf_path) {
        Some(program_path) => match path_file_name(program_path) {
            Some(name) => spec_command("anchor deploy -p "@ + name),
            None => spec_command("anchor deploy"@),
        },
        None => spec_command("anchor deploy"@),
    }
}

/// The command that deploys the compiled program at `elf_path` with Anchor.
///
/// Anchor deploys every program of the workspace unless it is given one, and
/// it names a program by its directory, not by its package. So the name is
/// taken from the program's path.
pub fn anchor_deploy(project_map: &ProjectMap, elf_path: &str) -> (r: WCommand)
    ensures
        r@ == spec_anchor_deploy(project_map@, elf_path@),
{
    proof {
        reveal_strlit("anchor deploy -p ");
        reveal_strlit("anchor deploy");
        lemma_has_word("anchor deploy"@, 0);
    }
    match project_map.get_program_path(elf_path) {
        Some(program_path) => match file_name(program_path.as_str()) {
            Some(name) => {
                let mut line = String::from_str("anchor deploy -p ");
                line.append(name.as_str());
                proof {
                    lemma_has_word(line@, 0);
                }
                WCommand::new(line.as_str())
            },
            None => WCommand::new("anchor deploy"),
        },
        None => WCommand::new("anchor deploy"),
    }
}

} // verus!
