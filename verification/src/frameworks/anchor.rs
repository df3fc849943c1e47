//! Anchor projects.

use crate::command::{lemma_has_word, spec_command_in, CommandLine, WCommand};
use crate::error::WatchError;
use crate::framework::{spec_first_installed, Declaration, Framework, WatchableFramework};
use crate::framework_utils::{Programs, ProjectMap};
use crate::frameworks::{anchor_deploy, spec_anchor_deploy};
use vstd::prelude::*;
use vstd::string::*;

verus! {

/// The Anchor command line tool.
pub const ANCHOR: &'static str = "anchor";

/// An Anchor project.
#[derive(Debug)]
pub struct Anchor {
    /// The root directory of the project.
    origin: String,
    /// The known programs.
    project_map: ProjectMap,
}

impl Anchor {
    /// The Anchor project at `origin`, with no program known yet.
    pub fn new(origin: &str) -> (r: Self)
        ensures
            r.wf(),
            r.spec_origin() == origin@,
            r.spec_programs() == Seq::<(Seq<char>, Seq<char>)>::empty(),
    {
        Anchor { origin: String::from_str(origin), project_map: ProjectMap::new() }
    }
}

impl Framework for Anchor {
    closed spec fn wf(&self) -> bool {
        self.project_map.wf()
    }

    closed spec fn spec_origin(&self) -> Seq<char> {
        self.origin@
    }

    closed spec fn spec_programs(&self) -> Programs {
        self.project_map@
    }

    open spec fn spec_tools(&self) -> Seq<Seq<char>> {
        seq![ANCHOR@]
    }

    open spec fn spec_missing(&self) -> Seq<char> {
        ANCHOR@
    }

    open spec fn spec_build(&self, program_path: Seq<char>) -> CommandLine {
        spec_command_in("anchor build"@, program_path)
    }

    open spec fn spec_deploy(&self, elf_path: Seq<char>) -> CommandLine {
        spec_anchor_deploy(self.spec_programs(), elf_path)
    }

    open spec fn spec_declaration(&self) -> Declaration {
        Declaration::Rust
    }

    fn origin(&self) -> (r: &str) {
        self.origin.as_str()
    }

    fn tools(&self) -> (r: Vec<&'static str>) {
        let mut tools: Vec<&'static str> = Vec::new();
        tools.push(ANCHOR);
        assert(tools.deep_view() =~= seq![ANCHOR@]);
        tools
    }

    fn check_toolset(&mut self, installed: &Vec<bool>) -> (r: Result<(), WatchError>) {
        proof {
            reveal_with_fuel(spec_first_installed, 2);
            assert(seq![ANCHOR@].drop_last() =~= Seq::<Seq<char>>::empty());
        }
        if installed.len() > 0 && installed[0] {
            Ok(())
        } else {
            Err(WatchError::CommandNotFound(ANCHOR))
        }
    }

    fn set_program_path(&mut self, name: &str, path: &str) {
        self.project_map.set_program_path(name, path);
    }

    fn get_program_path(&self, path: &str) -> (r: Option<String>) {
        self.project_map.get_program_path(path)
    }

    /// Run in the program's directory, Anchor builds that program only.
    fn build(&self, program_path: &str) -> (r: WCommand) {
        proof {
            reveal_strlit("anchor build");
            lemma_has_word("anchor build"@, 0);
        }
        let mut command = WCommand::new("anchor build");
        command.current_dir(program_path);
        command
    }

    fn deploy(&self, elf_path: &str) -> (r: WCommand) {
        anchor_deploy(&self.project_map, elf_path)
    }

    fn declaration(&self) -> (r: Declaration) {
        Declaration::Rust
    }
}

impl WatchableFramework for Anchor {

}

} // verus!
