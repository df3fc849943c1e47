//! What the supported frameworks share: the map from program names to program
//! directories, program names derived from build outputs, the rewriting of a
//! declared program id, and the command lines of the Solana tools.

use crate::command::{lemma_has_word, spec_command, spec_command_in, ReadableOutput, WCommand};
use crate::constants::{dirname, extension};
use crate::error::WatchError;
use crate::glob::{glob, spec_glob, GlobError, GlobErrorView};
use crate::path::{
    extension as path_extension, file_name, join, parent, path_file_name, path_join, path_parent,
    spec_extension,
};
use crate::text::{
    ends_with, replace_char, spec_ends_with, spec_replace_char, spec_trim_end_matches, str_eq,
    trim_end_matches,
};
use crate::toml::Manifest;
use regex::RegexBuilder;
use vstd::prelude::*;
use vstd::string::*;
use vstd::utf8::*;

verus! {

/// File name suffix of a program keypair: `<program_name>-keypair.json`.
pub const KEYPAIR_SUFFIX: &'static str = "-keypair.json";

/// File name suffix of a compiled program: `<program_name>.so`.
pub const ELF_SUFFIX: &'static str = ".so";

/// The build command of the current Solana tools.
pub const BUILD_SBF: &'static str = "cargo build-sbf";

/// The build command of older Solana tools.
pub const BUILD_BPF: &'static str = "cargo build-bpf";

/// The program name that the file name of `path` carries before `suffix`:
/// none where the path has no file name or the name does not end with
/// `suffix`.
pub open spec fn spec_name_from_path(path: Seq<char>, suffix: Seq<char>) -> Option<Seq<char>> {
    match path_file_name(path) {
        Some(name) => if spec_ends_with(name, suffix) {
            Some(spec_trim_end_matches(name, suffix))
        } else {
            None
        },
        None => None,
    }
}

/// `name` with every underscore replaced by a hyphen.
pub open spec fn spec_kebab_case(name: Seq<char>) -> Seq<char> {
    spec_replace_char(name, '_', "-"@)
}

/// The program name that a keypair or a compiled program at `path` belongs to,
/// by the path's extension; none for any other path.
pub open spec fn spec_derived_name(path: Seq<char>) -> Option<Seq<char>> {
    match spec_extension(path) {
        Some(ext) => if ext == extension::JSON@ {
            spec_name_from_path(path, KEYPAIR_SUFFIX@)
        } else if ext == extension::SO@ {
            spec_name_from_path(path, ELF_SUFFIX@)
        } else {
            None
        },
        None => None,
    }
}

/// The known programs as the library reasons about them: each program's
/// name with its path, in the order in which the names were first entered.
pub type Programs = Seq<(Seq<char>, Seq<char>)>;

/// Whether the program name `entered` answers to `name`: it is `name`, or,
/// where separators are `folded`, the two are the same once every underscore
/// is read as a hyphen.
pub open spec fn spec_answers(entered: Seq<char>, name: Seq<char>, folded: bool) -> bool {
    if folded {
        spec_kebab_case(entered) == spec_kebab_case(name)
    } else {
        entered == name
    }
}

/// The position of the first of `programs` whose name answers to `name`.
pub open spec fn spec_position(programs: Programs, name: Seq<char>, folded: bool) -> Option<int>
    decreases programs.len(),
{
    if programs.len() == 0 {
        None
    } else {
        match spec_position(programs.drop_last(), name, folded) {
            Some(i) => Some(i),
            None => if spec_answers(programs.last().0, name, folded) {
                Some(programs.len() - 1)
            } else {
                None
            },
        }
    }
}

/// The path of the program entered under `name`, if there is one.
pub open spec fn spec_lookup(programs: Programs, name: Seq<char>) -> Option<Seq<char>> {
    match spec_position(programs, name, false) {
        Some(i) => Some(programs[i].1),
        None => None,
    }
}

/// The path of the first program entered whose name is `name` with its
/// separators folded, if there is one.
pub open spec fn spec_folded_lookup(programs: Programs, name: Seq<char>) -> Option<Seq<char>> {
    match spec_position(programs, name, true) {
        Some(i) => Some(programs[i].1),
        None => None,
    }
}

/// `programs` with the program `name` entered at `path`: in the place of the
/// entry under that name, or behind the others where there is none.
pub open spec fn spec_entered(programs: Programs, name: Seq<char>, path: Seq<char>) -> Programs {
    match spec_position(programs, name, false) {
        Some(i) => programs.update(i, (name, path)),
        None => programs.push((name, path)),
    }
}

/// The path of the program that `path` belongs to: the program entered under
/// the name that `path` carries, else the program entered under that name in
/// kebab case, else the first program entered whose name differs from that
/// name in its separators only.
pub open spec fn spec_program_path(programs: Programs, path: Seq<char>) -> Option<Seq<char>> {
    match spec_derived_name(path) {
        Some(name) => match spec_lookup(programs, name) {
            Some(program_path) => Some(program_path),
            None => match spec_lookup(programs, spec_kebab_case(name)) {
                Some(program_path) => Some(program_path),
                None => spec_folded_lookup(programs, name),
            },
        },
        None => None,
    }
}

/// The name of a program.
///
/// The Solana build tools name the keypair `<program_name>-keypair.json` and
/// the compiled program `<program_name>.so`, with `<program_name>` always in
/// snake case. The programs `hello-world` and `hello_world` therefore have the
/// same output files, and the name a file carries may differ from the
/// program's own in its separators.
#[derive(Debug)]
pub struct ProgramName(String);

impl View for ProgramName {
    type V = Seq<char>;

    closed spec fn view(&self) -> Seq<char> {
        self.0@
    }
}

impl ProgramName {
    /// The program name `name`.
    pub fn new(name: &str) -> (r: Self)
        ensures
            r@ == name@,
    {
        ProgramName(String::from_str(name))
    }

    /// The program name that the keypair at `program_keypair_path` carries.
    pub fn from_keypair_path(program_keypair_path: &str) -> (r: Option<Self>)
        ensures
            r.deep_view() == spec_name_from_path(program_keypair_path@, KEYPAIR_SUFFIX@),
    {
        Self::from_path(program_keypair_path, KEYPAIR_SUFFIX)
    }

    /// The program name that the compiled program at `program_elf_path` carries.
    pub fn from_elf_path(program_elf_path: &str) -> (r: Option<Self>)
        ensures
            r.deep_view() == spec_name_from_path(program_elf_path@, ELF_SUFFIX@),
    {
        Self::from_path(program_elf_path, ELF_SUFFIX)
    }

    /// The file name of `path` without `suffix`, where it ends with it.
    fn from_path(path: &str, suffix: &str) -> (r: Option<Self>)
        ensures
            r.deep_view() == spec_name_from_path(path@, suffix@),
    {
        match file_name(path) {
            Some(name) => {
                if ends_with(name.as_str(), suffix) {
                    Some(Self::new(trim_end_matches(name.as_str(), suffix)))
                } else {
                    None
                }
            },
            None => None,
        }
    }

    /// The name as it was given.
    pub fn original(&self) -> (r: &str)
        ensures
            r@ == self@,
    {
        self.0.as_str()
    }

    /// The name in kebab case: every underscore replaced by a hyphen.
    pub fn kebab_case(&self) -> (r: String)
        ensures
            r@ == spec_kebab_case(self@),
    {
        replace_char(self.0.as_str(), '_', "-")
    }
}

impl DeepView for ProgramName {
    type V = Seq<char>;

    open spec fn deep_view(&self) -> Seq<char> {
        self@
    }
}

/// The known programs: for each program name the program's path.
///
/// Programs are entered under their own name only. A lookup by a file of the
/// build output tries the name that the file carries first and that name in
/// kebab case second. Failing both, it finds the program whose name differs
/// from the carried name in its separators only: `hello_world` answers to
/// `hello-world` and the other way round. Where several programs do, the one
/// entered first is found.
#[derive(Debug)]
pub struct ProjectMap {
    programs: Vec<Program>,
}

impl View for ProjectMap {
    type V = Programs;

    closed spec fn view(&self) -> Programs {
        self.programs.deep_view()
    }
}

/// No name is entered twice.
pub open spec fn spec_distinct_names(programs: Programs) -> bool {
    forall|i: int, j: int|
        0 <= i < j < programs.len() ==> (#[trigger] programs[i]).0 != (#[trigger] programs[j]).0
}

impl ProjectMap {
    /// No name is entered twice.
    pub open spec fn wf(&self) -> bool {
        spec_distinct_names(self@)
    }

    /// A map without programs.
    pub fn new() -> (r: Self)
        ensures
            r.wf(),
            r@ == Seq::<(Seq<char>, Seq<char>)>::empty(),
    {
        let r = ProjectMap { programs: Vec::new() };
        assert(r@ =~= Seq::<(Seq<char>, Seq<char>)>::empty());
        r
    }

    /// The path of the program that `path` belongs to, where `path` is a
    /// program keypair or a compiled program and the program is known.
    ///
    /// The program entered under the name that the file carries is found
    /// first, the program entered under that name in kebab case second;
    /// failing both, the first program entered whose name differs from the
    /// carried name in its separators only.
    pub fn get_program_path(&self, path: &str) -> (r: Option<String>)
        ensures
            r.deep_view() == spec_program_path(self@, path@),
    {
        let program_name = match path_extension(path) {
            Some(ext) => {
                if str_eq(ext.as_str(), extension::JSON) {
                    ProgramName::from_keypair_path(path)
                } else if str_eq(ext.as_str(), extension::SO) {
                    ProgramName::from_elf_path(path)
                } else {
                    None
                }
            },
            None => None,
        };
        match program_name {
            Some(program_name) => match self.position(program_name.original(), false) {
                Some(i) => Some(self.programs[i].root_path.clone()),
                None => match self.position(program_name.kebab_case().as_str(), false) {
                    Some(i) => Some(self.programs[i].root_path.clone()),
                    None => match self.position(program_name.original(), true) {
                        Some(i) => Some(self.programs[i].root_path.clone()),
                        None => None,
                    },
                },
            },
            None => None,
        }
    }

    /// Enters the program `name` with its path, in place of an earlier entry
    /// under the same name.
    pub fn set_program_path(&mut self, name: &str, path: &str)
        requires
            old(self).wf(),
        ensures
            final(self).wf(),
            final(self)@ == spec_entered(old(self)@, name@, path@),
    {
        let ghost before = self@;
        proof {
            lemma_entered(before, name@, path@);
        }
        let entry = Program { name: String::from_str(name), root_path: String::from_str(path) };
        match self.position(name, false) {
            Some(i) => {
                self.programs.set(i, entry);
                assert(self@ =~= before.update(i as int, (name@, path@)));
            },
            None => {
                self.programs.push(entry);
                assert(self@ =~= before.push((name@, path@)));
            },
        }
    }

    /// The path of the program entered under `name`, if there is one.
    pub fn get_program_path_from_name(&self, name: &str) -> (r: Option<String>)
        ensures
            r.deep_view() == spec_lookup(self@, name@),
    {
        match self.position(name, false) {
            Some(i) => Some(self.programs[i].root_path.clone()),
            None => None,
        }
    }

    /// Where the first program stands whose name answers to `name`.
    fn position(&self, name: &str, folded: bool) -> (r: Option<usize>)
        ensures
            match r {
                Some(i) => i < self.programs.len() && spec_position(self@, name@, folded) == Some(
                    i as int,
                ),
                None => spec_position(self@, name@, folded) is None,
            },
    {
        let wanted = if folded {
            replace_char(name, '_', "-")
        } else {
            String::from_str(name)
        };
        let mut i: usize = 0;
        while i < self.programs.len()
            invariant
                i <= self.programs.len(),
                wanted@ == if folded {
                    spec_kebab_case(name@)
                } else {
                    name@
                },
                forall|j: int| 0 <= j < i ==> !spec_answers(self@[j].0, name@, folded),
            decreases self.programs.len() - i,
        {
            let entered = self.programs[i].name.as_str();
            let answers = if folded {
                str_eq(replace_char(entered, '_', "-").as_str(), wanted.as_str())
            } else {
                str_eq(entered, wanted.as_str())
            };
            assert(answers == spec_answers(self@[i as int].0, name@, folded));
            if answers {
                proof {
                    lemma_position_is(self@, name@, folded, i as int);
                }
                return Some(i);
            }
            i += 1;
        }
        proof {
            lemma_position(self@, name@, folded);
        }
        None
    }
}

/// What `spec_position` yields: the first position whose name answers, or
/// nothing where no name does.
pub proof fn lemma_position(programs: Programs, name: Seq<char>, folded: bool)
    ensures
        match spec_position(programs, name, folded) {
            Some(i) => 0 <= i < programs.len() && spec_answers(programs[i].0, name, folded)
                && forall|j: int| 0 <= j < i ==> !spec_answers(programs[j].0, name, folded),
            None => forall|j: int|
                0 <= j < programs.len() ==> !spec_answers(programs[j].0, name, folded),
        },
    decreases programs.len(),
{
    if programs.len() > 0 {
        lemma_position(programs.drop_last(), name, folded);
        assert forall|j: int| 0 <= j < programs.len() - 1 implies programs.drop_last()[j]
            == programs[j] by {}
    }
}

/// Where a program declares its id in Rust source: `declare_id!("...")` at the
/// start of a line, possibly behind a module path. The third group captures
/// the id.
pub const RUST_DECLARE_ID: &'static str = r#"^(([\w]+::)*)declare_id!\("(\w*)"\)"#;

/// The group of `RUST_DECLARE_ID` that captures the id.
pub const RUST_DECLARE_ID_GROUP: usize = 3;

/// The byte range of capture group `group` in the first match of the regular
/// expression `pattern`, compiled in multi-line mode, in `haystack`: what the
/// `regex` crate finds. There is none where the expression does not compile,
/// where it does not match, and where the group took no part in the match.
pub uninterp spec fn regex_capture(pattern: Seq<char>, group: usize, haystack: Seq<char>) -> Option<
    (usize, usize),
>;

/// Whether `start..end` is a range of whole characters in the UTF-8 encoding
/// of `content`.
pub open spec fn spec_valid_range(content: Seq<char>, start: int, end: int) -> bool {
    let bytes = encode_utf8(content);
    &&& 0 <= start <= end <= bytes.len()
    &&& is_char_boundary(bytes, start)
    &&& is_char_boundary(bytes, end)
}

/// The text that the bytes `start..end` of `content` spell.
pub open spec fn spec_declared_id(content: Seq<char>, start: int, end: int) -> Seq<char> {
    decode_utf8(encode_utf8(content).subrange(start, end))
}

/// `content` with the bytes `start..end` replaced by `program_id`.
pub open spec fn spec_patched(content: Seq<char>, program_id: Seq<char>, start: int, end: int) -> Seq<
    char,
> {
    let bytes = encode_utf8(content);
    decode_utf8(bytes.subrange(0, start)) + program_id + decode_utf8(
        bytes.subrange(end, bytes.len() as int),
    )
}

/// What an update of the declared id yields: the patched content where a
/// declaration was found at `found` and declares another id than
/// `program_id`, and nothing where there is no declaration or it is up to
/// date.
pub open spec fn spec_update(
    content: Seq<char>,
    program_id: Seq<char>,
    found: Option<(usize, usize)>,
) -> Option<Seq<char>> {
    match found {
        Some((start, end)) => if spec_declared_id(content, start as int, end as int)
            != program_id {
            Some(spec_patched(content, program_id, start as int, end as int))
        } else {
            None
        },
        None => None,
    }
}

/// Compiles `pattern` with `regex::RegexBuilder` in multi-line mode, searches
/// `haystack` with `regex::Regex::captures` and reads group `group` with
/// `regex::Captures::get`.
///
/// The contract names the result, and states what the crate documents of
/// every match: its start is not behind its end, and both are byte offsets
/// into the haystack that fall on character boundaries.
#[verifier::external_body]
pub(crate) fn capture(pattern: &str, group: usize, haystack: &str) -> (r: Option<(usize, usize)>)
    ensures
        r == regex_capture(pattern@, group, haystack@),
        r matches Some((start, end)) ==> spec_valid_range(haystack@, start as int, end as int),
{
    let regex = RegexBuilder::new(pattern).multi_line(true).build().ok()?;
    let found = regex.captures(haystack)?.get(group)?;
    Some((found.start(), found.end()))
}

/// Rewrites the id that `content` declares at the byte range `found` to
/// `program_id`.
///
/// Returns the new content where the declared id differs from `program_id`,
/// and nothing where no declaration was found or the declared id is
/// `program_id` already. Only the bytes of the range are replaced.
pub fn update_file_program_id_with(
    content: &str,
    program_id: &str,
    found: Option<(usize, usize)>,
) -> (r: Option<String>)
    requires
        found matches Some((start, end)) ==> spec_valid_range(content@, start as int, end as int),
    ensures
        r.deep_view() == spec_update(content@, program_id@, found),
{
    match found {
        None => None,
        Some((start, end)) => {
            let ghost bytes = encode_utf8(content@);
            proof {
                encode_utf8_valid_utf8(content@);
                valid_utf8_split(bytes, end as int);
                valid_utf8_split(bytes, start as int);
                let front = bytes.subrange(0, end as int);
                if start < end {
                    is_char_boundary_iff_not_is_continuation_byte(bytes, start as int);
                    is_char_boundary_iff_not_is_continuation_byte(front, start as int);
                } else {
                    is_char_boundary_start_end_of_seq(front);
                }
            }
            let (head, _) = content.split_at(start);
            let (front, tail) = content.split_at(end);
            let (_, declared) = front.split_at(start);
            proof {
                assert(declared.spec_bytes() =~= bytes.subrange(start as int, end as int));
                encode_utf8_decode_utf8(head@);
                encode_utf8_decode_utf8(tail@);
                encode_utf8_decode_utf8(declared@);
            }
            if str_eq(declared, program_id) {
                None
            } else {
                let mut out = String::from_str(head);
                out.append(program_id);
                out.append(tail);
                Some(out)
            }
        },
    }
}

/// Rewrites the id that the Rust source `content` declares with `declare_id!`
/// to `program_id`. Returns the new content, or nothing where the source
/// declares no id or declares `program_id` already.
pub fn update_rust_program_id(content: &str, program_id: &str) -> (r: Option<String>)
    ensures
        r.deep_view() == spec_update(
            content@,
            program_id@,
            regex_capture(RUST_DECLARE_ID@, RUST_DECLARE_ID_GROUP, content@),
        ),
{
    let found = capture(RUST_DECLARE_ID, RUST_DECLARE_ID_GROUP, content);
    update_file_program_id_with(content, program_id, found)
}

/// The command that prints the address of the keypair at `keypair_path`:
/// `solana address -k <keypair_path>`.
pub fn pubkey_command(keypair_path: &str) -> (r: WCommand)
    ensures
        r@ == spec_command("solana address -k "@ + keypair_path@),
{
    let mut line = String::from_str("solana address -k ");
    line.append(keypair_path);
    proof {
        reveal_strlit("solana address -k ");
        lemma_has_word(line@, 0);
    }
    WCommand::new(line.as_str())
}

/// The address that the command of `pubkey_command` printed: its standard
/// output without the line feeds at its end. Where the command failed, the
/// error carries what it wrote to standard error.
pub fn pubkey_from_output(output: &ReadableOutput) -> (r: Result<String, WatchError>)
    ensures
        match r {
            Ok(program_id) => output.spec_status() && program_id@ == spec_trim_end_matches(
                crate::command::spec_text_of(output.spec_stdout()),
                "\n"@,
            ),
            Err(error) => !output.spec_status() && (error matches WatchError::CouldNotGetKeypair(
                reason,
            ) && reason@ == crate::command::spec_text_of(output.spec_stderr())),
        },
{
    if !output.status() {
        return Err(WatchError::CouldNotGetKeypair(output.stderr()));
    }
    let stdout = output.stdout();
    Ok(String::from_str(trim_end_matches(stdout.as_str(), "\n")))
}

/// The name of the command that locates the manifest of a source file.
pub const LOCATE_PROJECT: &'static str = "cargo locate-project";

/// The command that prints the manifest path of the program that the source
/// file `modified_file_path` belongs to: `cargo locate-project
/// --message-format plain`, run in the file's directory. There is none for a
/// path without a parent.
pub fn locate_project_command(modified_file_path: &str) -> (r: Option<WCommand>)
    ensures
        match path_parent(modified_file_path@) {
            Some(dir) => r matches Some(command) && command@ == spec_command_in(
                "cargo locate-project --message-format plain"@,
                dir,
            ),
            None => r is None,
        },
{
    match parent(modified_file_path) {
        Some(dir) => {
            proof {
                reveal_strlit("cargo locate-project --message-format plain");
                lemma_has_word("cargo locate-project --message-format plain"@, 0);
            }
            let mut command = WCommand::new("cargo locate-project --message-format plain");
            command.current_dir(dir.as_str());
            Some(command)
        },
        None => None,
    }
}

/// The directory of the program whose manifest path `text` spells, line
/// feeds at its end aside.
pub open spec fn spec_manifest_dir(text: Seq<char>) -> Option<Seq<char>> {
    path_parent(spec_trim_end_matches(text, "\n"@))
}

/// The program directory that the command of `locate_project_command`
/// printed: the parent of the manifest path on its standard output. It fails
/// with `CommandNotFound` where the command failed or printed no path that
/// has a parent.
pub fn program_path_from_output(output: &ReadableOutput) -> (r: Result<String, WatchError>)
    ensures
        match r {
            Ok(program_path) => output.spec_status() && spec_manifest_dir(
                crate::command::spec_text_of(output.spec_stdout()),
            ) == Some(program_path@),
            Err(error) => (!output.spec_status() || spec_manifest_dir(
                crate::command::spec_text_of(output.spec_stdout()),
            ) is None) && (error matches WatchError::CommandNotFound(command) && command@
                == LOCATE_PROJECT@),
        },
{
    if output.status() {
        let stdout = output.stdout();
        match parent(trim_end_matches(stdout.as_str(), "\n")) {
            Some(program_path) => Ok(program_path),
            None => Err(WatchError::CommandNotFound(LOCATE_PROJECT)),
        }
    } else {
        Err(WatchError::CommandNotFound(LOCATE_PROJECT))
    }
}

/// The command that starts a local test validator in `origin`:
/// `solana-test-validator`. It never returns while the validator runs, and
/// has no effect where one is running already.
pub fn test_validator_command(origin: &str) -> (r: WCommand)
    ensures
        r@ == spec_command_in("solana-test-validator"@, origin@),
{
    proof {
        reveal_strlit("solana-test-validator");
        lemma_has_word("solana-test-validator"@, 0);
    }
    let mut command = WCommand::new("solana-test-validator");
    command.current_dir(origin);
    command
}

/// The Solana build command to use, given which of the two are installed:
/// `cargo build-sbf` where it is, else `cargo build-bpf` where that is. With
/// neither, the Solana tools are missing.
pub fn get_bpf_or_sbf(sbf_installed: bool, bpf_installed: bool) -> (r: Result<
    &'static str,
    WatchError,
>)
    ensures
        match r {
            Ok(build_cmd) => if sbf_installed {
                build_cmd@ == BUILD_SBF@
            } else {
                bpf_installed && build_cmd@ == BUILD_BPF@
            },
            Err(error) => !sbf_installed && !bpf_installed && (
            error matches WatchError::CommandNotFound(command) && command@ == "solana"@),
        },
{
    if sbf_installed {
        Ok(BUILD_SBF)
    } else if bpf_installed {
        Ok(BUILD_BPF)
    } else {
        Err(WatchError::CommandNotFound("solana"))
    }
}

/// The directory under `origin` that holds keypairs and compiled programs.
pub open spec fn spec_deploy_dir(origin: Seq<char>) -> Seq<char> {
    path_join(path_join(origin, dirname::TARGET@), dirname::DEPLOY@)
}

/// The directory under `origin` that holds keypairs and compiled programs:
/// `<origin>/target/deploy`.
pub fn deploy_dir(origin: &str) -> (r: String)
    ensures
        r@ == spec_deploy_dir(origin@),
{
    let target = join(origin, dirname::TARGET);
    join(target.as_str(), dirname::DEPLOY)
}

/// The directories to watch by default: `target/deploy` always, then the
/// programs of the workspace where the origin is one, else `src`.
pub fn get_watch_pathset(workspace_programs: Option<Vec<String>>) -> (r: Vec<String>)
    ensures
        r.deep_view() == seq![path_join(dirname::TARGET@, dirname::DEPLOY@)] + (
        match workspace_programs {
            Some(programs) => programs.deep_view(),
            None => seq![dirname::SRC@],
        }),
{
    let mut paths: Vec<String> = Vec::new();
    paths.push(join(dirname::TARGET, dirname::DEPLOY));
    let ghost first = paths.deep_view();
    assert(first =~= seq![path_join(dirname::TARGET@, dirname::DEPLOY@)]);
    match workspace_programs {
        Some(mut programs) => {
            let ghost rest = programs.deep_view();
            paths.append(&mut programs);
            assert(paths.deep_view() =~= first + rest);
        },
        None => {
            paths.push(String::from_str(dirname::SRC));
            assert(paths.deep_view() =~= first + seq![dirname::SRC@]);
        },
    }
    paths
}

/// Ignore globs for build outputs, which are always ignored.
pub const IGNORE_TARGET: &'static str = "**/*/target/**/*";

/// Ignore globs for the ledger of the local test validator, which is always ignored.
pub const IGNORE_TEST_LEDGER: &'static str = "**/*/test-ledger/**/*";

/// Ignore globs for JavaScript dependencies, which are always ignored.
pub const IGNORE_NODE_MODULES: &'static str = "**/*/node_modules/**/*";

/// The globs that are ignored whatever the framework.
pub open spec fn spec_default_ignores() -> Seq<Seq<char>> {
    seq![IGNORE_TARGET@, IGNORE_TEST_LEDGER@, IGNORE_NODE_MODULES@]
}

/// What decides which changed files are handled.
#[derive(Debug)]
pub struct FiltererConfig {
    /// Globs that a path has to match, if there are any.
    pub filters: Vec<String>,
    /// Globs whose matches are ignored.
    pub ignores: Vec<String>,
    /// Extensions that a file has to have, if there are any.
    pub extensions: Vec<String>,
}

/// The filter configuration for the given globs and extensions. Build
/// outputs, the test ledger and `node_modules` are always ignored, before the
/// given `ignores`.
pub fn create_globset_filterer(
    filters: &Vec<String>,
    ignores: &Vec<String>,
    extensions: &Vec<String>,
) -> (r: FiltererConfig)
    ensures
        r.filters.deep_view() == filters.deep_view(),
        r.ignores.deep_view() == spec_default_ignores() + ignores.deep_view(),
        r.extensions.deep_view() == extensions.deep_view(),
{
    let mut all: Vec<String> = Vec::new();
    all.push(String::from_str(IGNORE_TARGET));
    all.push(String::from_str(IGNORE_TEST_LEDGER));
    all.push(String::from_str(IGNORE_NODE_MODULES));
    assert(all.deep_view() =~= spec_default_ignores());
    let mut rest = ignores.clone();
    proof {
        vstd::std_specs::vec::vec_clone_deep_view_proof(*ignores, rest);
    }
    all.append(&mut rest);
    assert(all.deep_view() =~= spec_default_ignores() + ignores.deep_view());
    let filters_copy = filters.clone();
    let extensions_copy = extensions.clone();
    proof {
        vstd::std_specs::vec::vec_clone_deep_view_proof(*filters, filters_copy);
        vstd::std_specs::vec::vec_clone_deep_view_proof(*extensions, extensions_copy);
    }
    FiltererConfig { filters: filters_copy, ignores: all, extensions: extensions_copy }
}

/// A program: its name and the path it lies at.
#[derive(Debug)]
pub struct Program {
    /// The name, as its manifest or its source file gives it.
    pub name: String,
    /// The program's directory or, for Seahorse, its source file.
    pub root_path: String,
}

impl DeepView for Program {
    type V = (Seq<char>, Seq<char>);

    open spec fn deep_view(&self) -> (Seq<char>, Seq<char>) {
        (self.name@, self.root_path@)
    }
}

/// `programs` with `entered` entered in order.
pub open spec fn spec_with_programs(
    programs: Programs,
    entered: Seq<(Seq<char>, Seq<char>)>,
) -> Programs
    decreases entered.len(),
{
    if entered.len() == 0 {
        programs
    } else {
        spec_entered(
            spec_with_programs(programs, entered.drop_last()),
            entered.last().0,
            entered.last().1,
        )
    }
}

/// A directory that may hold a program, with its manifest where it has one
/// that can be read.
#[derive(Debug)]
pub struct Candidate {
    /// The directory.
    pub path: String,
    /// The manifest in it.
    pub manifest: Option<Manifest>,
}

/// The program that a candidate holds: the package of its manifest.
pub open spec fn spec_candidate_program(candidate: Candidate) -> Option<(Seq<char>, Seq<char>)> {
    match candidate.manifest {
        Some(manifest) => match manifest@.package {
            Some(name) => Some((name, candidate.path@)),
            None => None,
        },
        None => None,
    }
}

/// The programs that `candidates` hold, in order.
pub open spec fn spec_candidate_programs(candidates: Seq<Candidate>) -> Seq<(Seq<char>, Seq<char>)>
    decreases candidates.len(),
{
    if candidates.len() == 0 {
        Seq::empty()
    } else {
        let before = spec_candidate_programs(candidates.drop_last());
        match spec_candidate_program(candidates.last()) {
            Some(program) => before.push(program),
            None => before,
        }
    }
}

/// The program directories of the workspace that `manifest`, the manifest at
/// `origin`, describes: those of `entries`, the paths found under `origin`,
/// that the workspace's `members` select and its `exclude` does not. There
/// are none to tell where the manifest describes no workspace.
pub fn filter_workspace_programs(origin: &str, manifest: &Manifest, entries: &Vec<String>) -> (r:
    Result<Option<Vec<String>>, GlobError>)
    ensures
        match manifest@.workspace {
            Some(workspace) => match r {
                Ok(programs) => programs is Some && spec_glob(
                    origin@,
                    entries.deep_view(),
                    workspace.members,
                    workspace.exclude,
                    true,
                ) == Ok::<Seq<Seq<char>>, GlobErrorView>(programs.deep_view()->0),
                Err(error) => spec_glob(
                    origin@,
                    entries.deep_view(),
                    workspace.members,
                    workspace.exclude,
                    true,
                ) == Err::<Seq<Seq<char>>, GlobErrorView>(error@),
            },
            None => r matches Ok(None),
        },
{
    match &manifest.workspace {
        Some(workspace) => {
            match glob(origin, entries, &workspace.members, &workspace.exclude, true) {
                Ok(paths) => Ok(Some(paths)),
                Err(error) => Err(error),
            }
        },
        None => Ok(None),
    }
}

/// The directories that may hold a program: those of the workspace, or the
/// project's own where it is no workspace.
pub fn program_dirs(origin: &str, workspace_programs: Option<Vec<String>>) -> (r: Vec<String>)
    ensures
        r.deep_view() == match workspace_programs {
            Some(programs) => programs.deep_view(),
            None => seq![origin@],
        },
{
    match workspace_programs {
        Some(programs) => programs,
        None => {
            let mut dirs: Vec<String> = Vec::new();
            dirs.push(String::from_str(origin));
            assert(dirs.deep_view() =~= seq![origin@]);
            dirs
        },
    }
}

/// The programs among `candidates`: for each directory whose manifest has a
/// package, the package's name with the directory.
pub fn get_program_name_path_hashmap(candidates: &Vec<Candidate>) -> (r: Vec<Program>)
    ensures
        r.deep_view() == spec_candidate_programs(candidates@),
{
    let mut programs: Vec<Program> = Vec::new();
    let mut i: usize = 0;
    assert(candidates@.subrange(0, 0) =~= Seq::<Candidate>::empty());
    assert(programs.deep_view() =~= Seq::<(Seq<char>, Seq<char>)>::empty());
    while i < candidates.len()
        invariant
            i <= candidates.len(),
            programs.deep_view() == spec_candidate_programs(candidates@.subrange(0, i as int)),
        decreases candidates.len() - i,
    {
        let ghost before = programs.deep_view();
        assert(candidates@.subrange(0, i + 1).drop_last() =~= candidates@.subrange(0, i as int));
        let candidate = &candidates[i];
        match &candidate.manifest {
            Some(manifest) => match &manifest.package {
                Some(name) => {
                    programs.push(Program { name: name.clone(), root_path: candidate.path.clone() });
                    assert(programs.deep_view() =~= before.push((name@, candidate.path@)));
                },
                None => {},
            },
            None => {},
        }
        i += 1;
    }
    assert(candidates@.subrange(0, candidates.len() as int) =~= candidates@);
    programs
}

/// The first position whose name answers is what `spec_position` yields.
pub proof fn lemma_position_is(programs: Programs, name: Seq<char>, folded: bool, i: int)
    requires
        0 <= i < programs.len(),
        spec_answers(programs[i].0, name, folded),
        forall|j: int| 0 <= j < i ==> !spec_answers(programs[j].0, name, folded),
    ensures
        spec_position(programs, name, folded) == Some(i),
{
    lemma_position(programs, name, folded);
    match spec_position(programs, name, folded) {
        Some(k) => {
            if k < i {
                assert(!spec_answers(programs[k].0, name, folded));
            }
            if i < k {
                assert(spec_answers(programs[i].0, name, folded));
            }
        },
        None => {
            assert(!spec_answers(programs[i].0, name, folded));
        },
    }
}

/// Kebab case reads every underscore as a hyphen and leaves the other
/// characters as they are; so it changes nothing in a name that is in kebab
/// case already.
pub proof fn lemma_kebab_case(name: Seq<char>)
    ensures
        spec_kebab_case(name).len() == name.len(),
        forall|i: int|
            0 <= i < name.len() ==> spec_kebab_case(name)[i] == if name[i] == '_' {
                '-'
            } else {
                name[i]
            },
        spec_kebab_case(spec_kebab_case(name)) == spec_kebab_case(name),
{
    lemma_kebab_chars(name);
    lemma_kebab_chars(spec_kebab_case(name));
    let once = spec_kebab_case(name);
    let twice = spec_kebab_case(once);
    assert forall|i: int| 0 <= i < once.len() implies twice[i] == once[i] by {
        assert(once[i] == if name[i] == '_' {
            '-'
        } else {
            name[i]
        });
    }
    assert(twice =~= once);
}

/// Kebab case character by character.
proof fn lemma_kebab_chars(name: Seq<char>)
    ensures
        spec_kebab_case(name).len() == name.len(),
        forall|i: int|
            0 <= i < name.len() ==> spec_kebab_case(name)[i] == if name[i] == '_' {
                '-'
            } else {
                name[i]
            },
    decreases name.len(),
{
    reveal_strlit("-");
    if name.len() > 0 {
        let init = name.drop_last();
        lemma_kebab_chars(init);
        let folded = spec_kebab_case(name);
        assert("-"@ =~= seq!['-']);
        assert(folded == if name.last() == '_' {
            spec_kebab_case(init) + seq!['-']
        } else {
            spec_kebab_case(init).push(name.last())
        });
        assert forall|i: int| 0 <= i < name.len() implies folded[i] == if name[i] == '_' {
            '-'
        } else {
            name[i]
        } by {
            if i < name.len() - 1 {
                assert(init[i] == name[i]);
                assert(folded[i] == spec_kebab_case(init)[i]);
            }
        }
    }
}

/// Where a program is entered: at the first position under its name, which
/// then holds it; the names at all positions but a new last one stay.
pub proof fn lemma_entered_at(programs: Programs, name: Seq<char>, path: Seq<char>) -> (at: int)
    ensures
        0 <= at < spec_entered(programs, name, path).len(),
        spec_entered(programs, name, path)[at] == (name, path),
        spec_position(spec_entered(programs, name, path), name, false) == Some(at),
        at <= programs.len() <= spec_entered(programs, name, path).len() <= programs.len() + 1,
        forall|j: int| 0 <= j < programs.len() && j != at ==> spec_entered(programs, name, path)[j]
            == programs[j],
        at < programs.len() ==> programs[at].0 == name && spec_entered(programs, name, path).len()
            == programs.len(),
        at == programs.len() ==> spec_position(programs, name, false) is None && spec_entered(
            programs,
            name,
            path,
        ).len() == programs.len() + 1,
{
    let entered = spec_entered(programs, name, path);
    lemma_position(programs, name, false);
    let at = match spec_position(programs, name, false) {
        Some(i) => i,
        None => programs.len() as int,
    };
    assert(entered[at] == (name, path));
    assert forall|j: int| 0 <= j < at implies !spec_answers(entered[j].0, name, false) by {
        assert(entered[j] == programs[j]);
    }
    lemma_position_is(entered, name, false, at);
    at
}

/// A program entered under the name that a keypair or compiled program
/// carries is found by that file.
pub proof fn lemma_found_by_derived_name(
    programs: Programs,
    name: Seq<char>,
    program_path: Seq<char>,
    path: Seq<char>,
)
    requires
        spec_derived_name(path) == Some(name),
    ensures
        spec_program_path(spec_entered(programs, name, program_path), path) == Some(program_path),
{
    let at = lemma_entered_at(programs, name, program_path);
}

/// A program is found by a keypair or compiled program whose carried name
/// differs from the program's name in its separators only, whichever of the
/// two has the underscores: the lookup succeeds, and where no other program
/// is known it yields this program.
pub proof fn lemma_found_by_folded_name(
    programs: Programs,
    name: Seq<char>,
    program_path: Seq<char>,
    path: Seq<char>,
)
    requires
        spec_derived_name(path) matches Some(derived) && spec_kebab_case(name) == spec_kebab_case(
            derived,
        ),
    ensures
        spec_program_path(spec_entered(programs, name, program_path), path) is Some,
        programs.len() == 0 ==> spec_program_path(
            spec_entered(programs, name, program_path),
            path,
        ) == Some(program_path),
{
    let derived = spec_derived_name(path)->0;
    let entered = spec_entered(programs, name, program_path);
    let at = lemma_entered_at(programs, name, program_path);
    assert(spec_answers(entered[at].0, derived, true));
    lemma_position(entered, derived, false);
    lemma_position(entered, spec_kebab_case(derived), false);
    lemma_position(entered, derived, true);
    if programs.len() == 0 {
        assert(entered.len() == 1 && at == 0);
    }
}

/// A program entered in snake case is found by a file that carries its name
/// in kebab case: entered as `hello_world`, it is found by
/// `hello-world-keypair.json` and by `hello-world.so`.
pub proof fn lemma_found_by_kebab_case_of_name(
    programs: Programs,
    name: Seq<char>,
    program_path: Seq<char>,
    path: Seq<char>,
)
    requires
        spec_derived_name(path) == Some(spec_kebab_case(name)),
    ensures
        spec_program_path(spec_entered(programs, name, program_path), path) is Some,
        programs.len() == 0 ==> spec_program_path(
            spec_entered(programs, name, program_path),
            path,
        ) == Some(program_path),
{
    lemma_kebab_case(name);
    lemma_found_by_folded_name(programs, name, program_path, path);
}

/// A program entered in kebab case is found by a file that carries its name
/// in snake case: entered as `hello-world`, it is found by
/// `hello_world-keypair.json` and by `hello_world.so`. It is the program that
/// the file finds unless one is entered under the very name that the file
/// carries, whatever other programs are known.
pub proof fn lemma_found_by_kebab_case(
    programs: Programs,
    name: Seq<char>,
    program_path: Seq<char>,
    path: Seq<char>,
)
    requires
        spec_derived_name(path) matches Some(derived) && spec_kebab_case(derived) == name,
    ensures
        spec_program_path(spec_entered(programs, name, program_path), path) is Some,
        spec_lookup(spec_entered(programs, name, program_path), spec_derived_name(path)->0)
            is None ==> spec_program_path(spec_entered(programs, name, program_path), path)
            == Some(program_path),
{
    lemma_kebab_case(spec_derived_name(path)->0);
    lemma_found_by_folded_name(programs, name, program_path, path);
    let at = lemma_entered_at(programs, name, program_path);
}

/// A file finds no program where it carries no program name, and where no
/// program is entered under the name it carries nor under a name that
/// differs from it in its separators only.
pub proof fn lemma_unrelated_not_found(programs: Programs, path: Seq<char>)
    requires
        spec_derived_name(path) matches Some(derived) ==> forall|i: int|
            0 <= i < programs.len() ==> (#[trigger] programs[i]).0 != derived && spec_kebab_case(
                programs[i].0,
            ) != spec_kebab_case(derived),
    ensures
        spec_program_path(programs, path) is None,
{
    if spec_derived_name(path) is Some {
        let derived = spec_derived_name(path)->0;
        lemma_kebab_case(derived);
        lemma_position(programs, derived, false);
        lemma_position(programs, spec_kebab_case(derived), false);
        lemma_position(programs, derived, true);
    }
}

/// Entering a program keeps the names distinct. The program is then found
/// under its name, and every other name finds what it found before.
pub proof fn lemma_entered(programs: Programs, name: Seq<char>, path: Seq<char>)
    ensures
        spec_distinct_names(programs) ==> spec_distinct_names(spec_entered(programs, name, path)),
        spec_lookup(spec_entered(programs, name, path), name) == Some(path),
        forall|other: Seq<char>|
            other != name ==> spec_lookup(spec_entered(programs, name, path), other)
                == spec_lookup(programs, other),
{
    let entered = spec_entered(programs, name, path);
    let at = lemma_entered_at(programs, name, path);
    assert forall|i: int, j: int|
        spec_distinct_names(programs) && 0 <= i < j < entered.len() implies entered[i].0
        != entered[j].0 by {
        if i != at && j != at {
            assert(entered[i] == programs[i] && entered[j] == programs[j]);
        } else if i == at {
            if at < programs.len() {
                assert(entered[j] == programs[j]);
                assert(programs[at].0 != programs[j].0);
            }
        } else {
            assert(entered[i] == programs[i]);
            if at < programs.len() {
                assert(programs[i].0 != programs[at].0);
            } else {
                lemma_position(programs, name, false);
                assert(!spec_answers(programs[i].0, name, false));
            }
        }
    }
    assert forall|other: Seq<char>| other != name implies spec_lookup(entered, other)
        == spec_lookup(programs, other) by {
        lemma_position(programs, other, false);
        match spec_position(programs, other, false) {
            Some(i) => {
                assert(entered[i] == programs[i]);
                assert forall|j: int| 0 <= j < i implies !spec_answers(
                    entered[j].0,
                    other,
                    false,
                ) by {
                    if j != at {
                        assert(entered[j] == programs[j]);
                    }
                }
                lemma_position_is(entered, other, false, i);
            },
            None => {
                lemma_position(entered, other, false);
                match spec_position(entered, other, false) {
                    Some(k) => {
                        if k != at {
                            assert(entered[k] == programs[k]);
                            assert(!spec_answers(programs[k].0, other, false));
                        }
                    },
                    None => {},
                }
            },
        }
    }
}

/// An update replaces the bytes of the declared id and no others: the
/// encoding of the patched content is that of the content before the range,
/// the encoding of the new id, and that of the content behind the range.
pub proof fn lemma_patch_is_precise(
    content: Seq<char>,
    program_id: Seq<char>,
    start: int,
    end: int,
)
    requires
        spec_valid_range(content, start, end),
    ensures
        encode_utf8(spec_patched(content, program_id, start, end)) == encode_utf8(
            content,
        ).subrange(0, start) + encode_utf8(program_id) + encode_utf8(content).subrange(
            end,
            encode_utf8(content).len() as int,
        ),
{
    let bytes = encode_utf8(content);
    let head = bytes.subrange(0, start);
    let tail = bytes.subrange(end, bytes.len() as int);
    encode_utf8_valid_utf8(content);
    valid_utf8_split(bytes, start);
    valid_utf8_split(bytes, end);
    decode_utf8_encode_utf8(head);
    decode_utf8_encode_utf8(tail);
    crate::text::lemma_encode_concat(decode_utf8(head), program_id);
    crate::text::lemma_encode_concat(decode_utf8(head) + program_id, decode_utf8(tail));
}

/// After an update the content declares the new id in the place of the old
/// one: the range that starts where the old id started and has the length of
/// the new id is a range of whole characters that spells the new id, so an
/// update that finds the declaration there changes nothing.
pub proof fn lemma_update_settles(
    content: Seq<char>,
    program_id: Seq<char>,
    start: usize,
    end: usize,
)
    requires
        spec_valid_range(content, start as int, end as int),
        start + encode_utf8(program_id).len() <= usize::MAX,
    ensures
        ({
            let patched = spec_patched(content, program_id, start as int, end as int);
            let settled = (start + encode_utf8(program_id).len()) as usize;
            &&& spec_valid_range(patched, start as int, settled as int)
            &&& spec_declared_id(patched, start as int, settled as int) == program_id
            &&& spec_update(patched, program_id, Some((start, settled))) is None
        }),
{
    let bytes = encode_utf8(content);
    let head = bytes.subrange(0, start as int);
    let tail = bytes.subrange(end as int, bytes.len() as int);
    let id_bytes = encode_utf8(program_id);
    let patched = spec_patched(content, program_id, start as int, end as int);
    let settled = start + id_bytes.len();
    lemma_patch_is_precise(content, program_id, start as int, end as int);
    let new_bytes = encode_utf8(patched);
    assert(new_bytes == head + id_bytes + tail);
    encode_utf8_valid_utf8(content);
    encode_utf8_valid_utf8(program_id);
    encode_utf8_valid_utf8(patched);
    valid_utf8_split(bytes, start as int);
    valid_utf8_split(bytes, end as int);
    assert(new_bytes.subrange(start as int, settled) =~= id_bytes);
    encode_utf8_decode_utf8(program_id);
    valid_utf8_concat(head, id_bytes);
    valid_utf8_concat(id_bytes, tail);
    lemma_boundary_of_concat(head, id_bytes + tail);
    assert(head + (id_bytes + tail) =~= new_bytes);
    lemma_boundary_of_concat(head + id_bytes, tail);
}

/// Where two valid encodings meet is a character boundary of their
/// concatenation.
pub proof fn lemma_boundary_of_concat(a: Seq<u8>, b: Seq<u8>)
    requires
        valid_utf8(a),
        valid_utf8(b),
    ensures
        valid_utf8(a + b),
        is_char_boundary(a + b, a.len() as int),
    decreases a.len(),
{
    valid_utf8_concat(a, b);
    if a.len() == 0 {
    } else {
        let rest = pop_first_scalar(a);
        assert(valid_first_scalar(a));
        assert(0 < length_of_first_scalar(a) <= a.len());
        assert(rest.len() < a.len());
        lemma_boundary_of_concat(rest, b);
        assert(length_of_first_scalar(a + b) == length_of_first_scalar(a));
        assert(pop_first_scalar(a + b) =~= rest + b);
        assert(a.len() - length_of_first_scalar(a) == rest.len());
    }
}

} // verus!
