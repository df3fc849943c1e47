//! Seahorse projects: Anchor programs generated from Python sources.

use crate::command::{lemma_has_word, spec_command, CommandLine, WCommand};
use crate::constants::dirname;
use crate::error::WatchError;
use crate::framework::{spec_first_installed, Declaration, Framework, WatchableFramework};
use crate::framework_utils::{
    capture, regex_capture, spec_update, update_file_program_id_with, Program, Programs, ProjectMap,
};
use crate::glob::{glob, spec_glob, GlobError, GlobErrorView};
use crate::frameworks::{anchor_deploy, spec_anchor_deploy};
use crate::path::{file_name, join, path_file_name, path_join};
use crate::text::{spec_trim_end_matches, trim_end_matches};
use vstd::prelude::*;
use vstd::string::*;

verus! {

/// The Seahorse command line tool.
pub const SEAHORSE: &'static str = "seahorse";

/// File name suffix of a Seahorse program.
pub const PY_SUFFIX: &'static str = ".py";

/// Where a Seahorse program declares its id: `declare_id("...")` at the start
/// of a line, in single or double quotes. The second group captures the id.
pub const SEAHORSE_DECLARE_ID: &'static str = r#"^declare_id\(("|')(\w*)("|')\)"#;

/// The group of `SEAHORSE_DECLARE_ID` that captures the id.
pub const SEAHORSE_DECLARE_ID_GROUP: usize = 2;

/// The name of the program whose Python source lies at `path`: the file name
/// without `.py` at its end.
pub open spec fn spec_program_name_from_path(path: Seq<char>) -> Option<Seq<char>> {
    match path_file_name(path) {
        Some(name) => Some(spec_trim_end_matches(name, PY_SUFFIX@)),
        None => None,
    }
}

/// The name of the program whose Python source lies at `path`. Seahorse
/// names the Anchor program that it generates after the Python file.
pub fn get_program_name_from_path(path: &str) -> (r: Option<String>)
    ensures
        r.deep_view() == spec_program_name_from_path(path@),
{
    match file_name(path) {
        Some(name) => Some(String::from_str(trim_end_matches(name.as_str(), PY_SUFFIX))),
        None => None,
    }
}

/// The directory of the Python sources of the project at `origin`.
pub fn programs_py_dir(origin: &str) -> (r: String)
    ensures
        r@ == path_join(origin@, dirname::PROGRAMS_PY@),
{
    join(origin, dirname::PROGRAMS_PY)
}

/// Rewrites the id that the Python source `content` declares with
/// `declare_id` to `program_id`. Returns the new content, or nothing where
/// the source declares no id or declares `program_id` already.
pub fn update_seahorse_program_id(content: &str, program_id: &str) -> (r: Option<String>)
    ensures
        r.deep_view() == spec_update(
            content@,
            program_id@,
            regex_capture(SEAHORSE_DECLARE_ID@, SEAHORSE_DECLARE_ID_GROUP, content@),
        ),
{
    let found = capture(SEAHORSE_DECLARE_ID, SEAHORSE_DECLARE_ID_GROUP, content);
    update_file_program_id_with(content, program_id, found)
}

/// A Seahorse project.
#[derive(Debug)]
pub struct Seahorse {
    /// The root directory of the project.
    origin: String,
    /// The known programs: for each name the program's Python source.
    project_map: ProjectMap,
}

impl Seahorse {
    /// The Seahorse project at `origin`, with no program known yet.
    pub fn new(origin: &str) -> (r: Self)
        ensures
            r.wf(),
            r.spec_origin() == origin@,
            r.spec_programs() == Seq::<(Seq<char>, Seq<char>)>::empty(),
    {
        Seahorse { origin: String::from_str(origin), project_map: ProjectMap::new() }
    }
}

/// The glob of the Python sources under `programs_py`.
pub const PY_GLOB: &'static str = "*.py";

/// The programs whose Python sources are `sources`, each under the name that
/// its file carries. A path without a file name holds no program.
pub open spec fn spec_source_programs(sources: Seq<Seq<char>>) -> Seq<(Seq<char>, Seq<char>)>
    decreases sources.len(),
{
    if sources.len() == 0 {
        Seq::empty()
    } else {
        let before = spec_source_programs(sources.drop_last());
        match spec_program_name_from_path(sources.last()) {
            Some(name) => before.push((name, sources.last())),
            None => before,
        }
    }
}

/// The programs of a Seahorse project: the Python files directly under
/// `programs_py`, the directory whose files `entries` are, each under the
/// name that its file carries.
pub fn seahorse_programs(programs_py: &str, entries: &Vec<String>) -> (r: Result<
    Vec<Program>,
    GlobError,
>)
    ensures
        match r {
            Ok(programs) => spec_glob(
                programs_py@,
                entries.deep_view(),
                seq![PY_GLOB@],
                Seq::empty(),
                true,
            ) matches Ok(sources) && programs.deep_view() == spec_source_programs(sources),
            Err(error) => spec_glob(
                programs_py@,
                entries.deep_view(),
                seq![PY_GLOB@],
                Seq::empty(),
                true,
            ) == Err::<Seq<Seq<char>>, GlobErrorView>(error@),
        },
{
    let mut wanted: Vec<String> = Vec::new();
    wanted.push(String::from_str(PY_GLOB));
    let unwanted: Vec<String> = Vec::new();
    assert(wanted.deep_view() =~= seq![PY_GLOB@]);
    assert(unwanted.deep_view() =~= Seq::<Seq<char>>::empty());
    let sources = match glob(programs_py, entries, &wanted, &unwanted, true) {
        Ok(sources) => sources,
        Err(error) => {
            return Err(error);
        },
    };
    let mut programs: Vec<Program> = Vec::new();
    let mut i: usize = 0;
    assert(sources.deep_view().subrange(0, 0) =~= Seq::<Seq<char>>::empty());
    assert(programs.deep_view() =~= Seq::<(Seq<char>, Seq<char>)>::empty());
    while i < sources.len()
        invariant
            i <= sources.len(),
            programs.deep_view() == spec_source_programs(sources.deep_view().subrange(0, i as int)),
        decreases sources.len() - i,
    {
        let ghost before = programs.deep_view();
        assert(sources.deep_view().subrange(0, i + 1).drop_last() =~= sources.deep_view().subrange(
            0,
            i as int,
        ));
        match get_program_name_from_path(sources[i].as_str()) {
            Some(name) => {
                programs.push(Program { name, root_path: sources[i].clone() });
                assert(programs.deep_view() =~= before.push((name@, sources.deep_view()[i as int])));
            },
            None => {},
        }
        i += 1;
    }
    assert(sources.deep_view().subrange(0, sources.len() as int) =~= sources.deep_view());
    Ok(programs)
}

impl Framework for Seahorse {
    closed spec fn wf(&self) -> bool {
        self.project_map.wf()
    }

    closed spec fn spec_origin(&self) -> Seq<char> {
        self.origin@
    }

    closed spec fn spec_programs(&self) -> Programs {
        self.project_map@
    }

    open spec fn spec_tools(&self) -> Seq<Seq<char>> {
        seq![SEAHORSE@]
    }

    open spec fn spec_missing(&self) -> Seq<char> {
        SEAHORSE@
    }

    open spec fn spec_build(&self, program_path: Seq<char>) -> CommandLine {
        match spec_program_name_from_path(program_path) {
            Some(name) => spec_command("seahorse build -p "@ + name),
            None => spec_command("seahorse build"@),
        }
    }

    open spec fn spec_deploy(&self, elf_path: Seq<char>) -> CommandLine {
        spec_anchor_deploy(self.spec_programs(), elf_path)
    }

    open spec fn spec_declaration(&self) -> Declaration {
        Declaration::Seahorse
    }

    fn origin(&self) -> (r: &str) {
        self.origin.as_str()
    }

    fn tools(&self) -> (r: Vec<&'static str>) {
        let mut tools: Vec<&'static str> = Vec::new();
        tools.push(SEAHORSE);
        assert(tools.deep_view() =~= seq![SEAHORSE@]);
        tools
    }

    fn check_toolset(&mut self, installed: &Vec<bool>) -> (r: Result<(), WatchError>) {
        proof {
            reveal_with_fuel(spec_first_installed, 2);
            assert(seq![SEAHORSE@].drop_last() =~= Seq::<Seq<char>>::empty());
        }
        if installed.len() > 0 && installed[0] {
            Ok(())
        } else {
            Err(WatchError::CommandNotFound(SEAHORSE))
        }
    }

    fn set_program_path(&mut self, name: &str, path: &str) {
        self.project_map.set_program_path(name, path);
    }

    fn get_program_path(&self, path: &str) -> (r: Option<String>) {
        self.project_map.get_program_path(path)
    }

    /// Builds the one program that the Python source at `program_path` holds.
    fn build(&self, program_path: &str) -> (r: WCommand) {
        proof {
            reveal_strlit("seahorse build -p ");
            reveal_strlit("seahorse build");
            lemma_has_word("seahorse build"@, 0);
        }
        match get_program_name_from_path(program_path) {
            Some(name) => {
                let mut line = String::from_str("seahorse build -p ");
                line.append(name.as_str());
                proof {
                    lemma_has_word(line@, 0);
                }
                WCommand::new(line.as_str())
            },
            None => WCommand::new("seahorse build"),
        }
    }

    fn deploy(&self, elf_path: &str) -> (r: WCommand) {
        anchor_deploy(&self.project_map, elf_path)
    }

    fn declaration(&self) -> (r: Declaration) {
        Declaration::Seahorse
    }
}

impl WatchableFramework for Seahorse {

}

} // verus!
