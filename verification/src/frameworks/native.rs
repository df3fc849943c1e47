//! Native projects: plain Cargo packages and workspaces.

use crate::command::{lemma_has_word, spec_command, spec_command_in, CommandLine, WCommand};
use crate::error::WatchError;
use crate::framework::{spec_first_installed, Declaration, Framework, WatchableFramework};
use crate::framework_utils::{get_bpf_or_sbf, Programs, ProjectMap, BUILD_BPF, BUILD_SBF};
use vstd::prelude::*;
use vstd::string::*;

verus! {

/// What is reported missing where neither build command is installed.
pub const SOLANA: &'static str = "solana";

/// A native project.
#[derive(Debug)]
pub struct Native {
    /// The root directory of the project.
    origin: String,
    /// The known programs.
    project_map: ProjectMap,
    /// The build command to run: `cargo build-sbf` or `cargo build-bpf`.
    build_cmd: &'static str,
}

impl Native {
    /// The build command in use.
    pub closed spec fn spec_build_cmd(&self) -> Seq<char> {
        self.build_cmd@
    }

    /// The native project at `origin`, with no program known yet and
    /// `cargo build-sbf` as its build command.
    pub fn new(origin: &str) -> (r: Self)
        ensures
            r.wf(),
            r.spec_origin() == origin@,
            r.spec_programs() == Seq::<(Seq<char>, Seq<char>)>::empty(),
            r.spec_build_cmd() == BUILD_SBF@,
    {
        Native {
            origin: String::from_str(origin),
            project_map: ProjectMap::new(),
            build_cmd: BUILD_SBF,
        }
    }
}

impl Framework for Native {
    closed spec fn wf(&self) -> bool {
        &&& self.project_map.wf()
        &&& (self.build_cmd@ == BUILD_SBF@ || self.build_cmd@ == BUILD_BPF@)
    }

    closed spec fn spec_origin(&self) -> Seq<char> {
        self.origin@
    }

    closed spec fn spec_programs(&self) -> Programs {
        self.project_map@
    }

    open spec fn spec_tools(&self) -> Seq<Seq<char>> {
        seq![BUILD_SBF@, BUILD_BPF@]
    }

    open spec fn spec_missing(&self) -> Seq<char> {
        SOLANA@
    }

    open spec fn spec_build(&self, program_path: Seq<char>) -> CommandLine {
        spec_command_in(self.spec_build_cmd(), program_path)
    }

    open spec fn spec_deploy(&self, elf_path: Seq<char>) -> CommandLine {
        spec_command("solana program deploy "@ + elf_path)
    }

    open spec fn spec_declaration(&self) -> Declaration {
        Declaration::Rust
    }

    fn origin(&self) -> (r: &str) {
        self.origin.as_str()
    }

    fn tools(&self) -> (r: Vec<&'static str>) {
        let mut tools: Vec<&'static str> = Vec::new();
        tools.push(BUILD_SBF);
        tools.push(BUILD_BPF);
        assert(tools.deep_view() =~= seq![BUILD_SBF@, BUILD_BPF@]);
        tools
    }

    /// Selects the build command as well: the first of the two that is
    /// installed.
    fn check_toolset(&mut self, installed: &Vec<bool>) -> (r: Result<(), WatchError>)
        ensures
            r is Ok ==> final(self).spec_build_cmd() == old(self).spec_tools()[spec_first_installed(
                old(self).spec_tools(),
                installed@,
            )->0],
            r is Err ==> final(self).spec_build_cmd() == old(self).spec_build_cmd(),
    {
        proof {
            reveal_with_fuel(spec_first_installed, 3);
            let tools = seq![BUILD_SBF@, BUILD_BPF@];
            assert(tools.drop_last() =~= seq![BUILD_SBF@]);
            assert(tools.drop_last().drop_last() =~= Seq::<Seq<char>>::empty());
        }
        let sbf_installed = installed.len() > 0 && installed[0];
        let bpf_installed = installed.len() > 1 && installed[1];
        match get_bpf_or_sbf(sbf_installed, bpf_installed) {
            Ok(build_cmd) => {
                self.build_cmd = build_cmd;
                Ok(())
            },
            Err(_) => Err(WatchError::CommandNotFound(SOLANA)),
        }
    }

    fn set_program_path(&mut self, name: &str, path: &str) {
        self.project_map.set_program_path(name, path);
    }

    fn get_program_path(&self, path: &str) -> (r: Option<String>) {
        self.project_map.get_program_path(path)
    }

    fn build(&self, program_path: &str) -> (r: WCommand) {
        proof {
            reveal_strlit("cargo build-sbf");
            reveal_strlit("cargo build-bpf");
            lemma_has_word(self.build_cmd@, 0);
        }
        let mut command = WCommand::new(self.build_cmd);
        command.current_dir(program_path);
        command
    }

    fn deploy(&self, elf_path: &str) -> (r: WCommand) {
        let mut line = String::from_str("solana program deploy ");
        line.append(elf_path);
        proof {
            reveal_strlit("solana program deploy ");
            lemma_has_word(line@, 0);
        }
        WCommand::new(line.as_str())
    }

    fn declaration(&self) -> (r: Declaration) {
        Declaration::Rust
    }
}

impl WatchableFramework for Native {

}

} // verus!
