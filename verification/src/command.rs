//! Command lines for the external tools, and what a finished command reports.

use crate::text::{spec_is_whitespace, spec_split_whitespace, split_whitespace};
use vstd::prelude::*;
use vstd::string::*;
use vstd::utf8::*;

verus! {

/// A command line as the library reasons about it.
pub struct CommandLine {
    /// The program to run.
    pub program: Seq<char>,
    /// Its arguments, in order.
    pub args: Seq<Seq<char>>,
    /// The directory to run it in, where one was chosen.
    pub dir: Option<Seq<char>>,
}

/// The command line that `words` spell: the first word is the program, the
/// others are its arguments, and no directory is chosen.
pub open spec fn spec_command_of_words(words: Seq<Seq<char>>) -> CommandLine {
    CommandLine { program: words[0], args: words.skip(1), dir: None }
}

/// The command line that the text `cmd` spells once split at white space.
pub open spec fn spec_command(cmd: Seq<char>) -> CommandLine {
    spec_command_of_words(spec_split_whitespace(cmd))
}

/// The command line `cmd`, to be run in `dir`.
pub open spec fn spec_command_in(cmd: Seq<char>, dir: Seq<char>) -> CommandLine {
    CommandLine { dir: Some(dir), ..spec_command(cmd) }
}

/// Whether `cmd` holds at least one word.
pub open spec fn spec_has_word(cmd: Seq<char>) -> bool {
    spec_split_whitespace(cmd).len() > 0
}

/// An external command: a program, its arguments and, optionally, the
/// directory to run it in. Building one runs nothing.
#[derive(Debug)]
pub struct WCommand {
    program: String,
    args: Vec<String>,
    dir: Option<String>,
}

impl View for WCommand {
    type V = CommandLine;

    closed spec fn view(&self) -> CommandLine {
        CommandLine {
            program: self.program@,
            args: self.args.deep_view(),
            dir: self.dir.deep_view(),
        }
    }
}

impl WCommand {
    /// Splits `cmd` at white space into a program and its arguments.
    pub fn new(cmd: &str) -> (r: Self)
        requires
            spec_has_word(cmd@),
        ensures
            r@ == spec_command(cmd@),
    {
        let mut words = split_whitespace(cmd);
        let ghost all = words.deep_view();
        let program = words.remove(0);
        assert(words.deep_view() =~= all.skip(1));
        WCommand { program, args: words, dir: None }
    }

    /// Splits `cmd` at white space into a program and its arguments, where it
    /// holds a word at all.
    pub fn parse(cmd: &str) -> (r: Option<Self>)
        ensures
            match r {
                Some(command) => spec_has_word(cmd@) && command@ == spec_command(cmd@),
                None => !spec_has_word(cmd@),
            },
    {
        let mut words = split_whitespace(cmd);
        if words.len() == 0 {
            return None;
        }
        let ghost all = words.deep_view();
        let program = words.remove(0);
        assert(words.deep_view() =~= all.skip(1));
        Some(WCommand { program, args: words, dir: None })
    }

    /// Sets the directory that the command runs in.
    pub fn current_dir(&mut self, dir: &str) -> (r: &mut Self)
        ensures
            r@ == (CommandLine { dir: Some(dir@), ..old(self)@ }),
            *final(self) == *final(r),
    {
        self.dir = Some(String::from_str(dir));
        self
    }

    /// The command that tells whether the tool `cmd` is installed: `cmd`
    /// followed by `--version`. The tool is installed if and only if that
    /// command runs and succeeds.
    pub fn version_probe(cmd: &str) -> (r: Self)
        ensures
            r@ == spec_command(cmd@ + " --version"@),
    {
        let mut line = String::from_str(cmd);
        line.append(" --version");
        proof {
            reveal_strlit(" --version");
            lemma_has_word(line@, (cmd@.len() + 1) as int);
        }
        WCommand::new(line.as_str())
    }

    /// The program to run.
    pub fn program(&self) -> (r: &str)
        ensures
            r@ == self@.program,
    {
        self.program.as_str()
    }

    /// The arguments to pass, in order.
    pub fn args(&self) -> (r: &Vec<String>)
        ensures
            r.deep_view() == self@.args,
    {
        &self.args
    }

    /// The directory to run in, where one was chosen.
    pub fn dir(&self) -> (r: Option<&str>)
        ensures
            r.deep_view() == self@.dir,
    {
        match &self.dir {
            Some(dir) => Some(dir.as_str()),
            None => None,
        }
    }
}

/// A text with a character that is not white space holds a word.
pub proof fn lemma_has_word(s: Seq<char>, i: int)
    requires
        0 <= i < s.len(),
        !spec_is_whitespace(s[i]),
    ensures
        spec_has_word(s),
    decreases s.len(),
{
    if i < s.len() - 1 {
        lemma_has_word(s.drop_last(), i);
    }
}

/// `core::str::from_utf8`: the text that `bytes` encode, where they are valid
/// UTF-8, and nothing where they are not.
#[verifier::external_body]
fn from_utf8(bytes: &[u8]) -> (r: Option<String>)
    ensures
        r is Some <==> valid_utf8(bytes@),
        r matches Some(text) ==> text@ == decode_utf8(bytes@),
{
    core::str::from_utf8(bytes).ok().map(|text| text.to_owned())
}

/// The text that `bytes` encode, or the empty text where they are not valid UTF-8.
pub open spec fn spec_text_of(bytes: Seq<u8>) -> Seq<char> {
    if valid_utf8(bytes) {
        decode_utf8(bytes)
    } else {
        Seq::empty()
    }
}

/// What a finished command reported.
#[derive(Debug)]
pub struct ReadableOutput {
    success: bool,
    stdout: Vec<u8>,
    stderr: Vec<u8>,
}

impl ReadableOutput {
    /// Whether the command exited successfully.
    pub closed spec fn spec_status(&self) -> bool {
        self.success
    }

    /// The bytes written to standard output.
    pub closed spec fn spec_stdout(&self) -> Seq<u8> {
        self.stdout@
    }

    /// The bytes written to standard error.
    pub closed spec fn spec_stderr(&self) -> Seq<u8> {
        self.stderr@
    }

    /// Records the outcome of a command: whether it exited successfully and
    /// what it wrote.
    pub fn new(success: bool, stdout: Vec<u8>, stderr: Vec<u8>) -> (r: Self)
        ensures
            r.spec_status() == success,
            r.spec_stdout() == stdout@,
            r.spec_stderr() == stderr@,
    {
        ReadableOutput { success, stdout, stderr }
    }

    /// Whether the command exited successfully.
    pub fn status(&self) -> (r: bool)
        ensures
            r == self.spec_status(),
    {
        self.success
    }

    /// Standard error as text; empty where it is not valid UTF-8.
    pub fn stderr(&self) -> (r: String)
        ensures
            r@ == spec_text_of(self.spec_stderr()),
    {
        match from_utf8(self.stderr.as_slice()) {
            Some(text) => text,
            None => String::new(),
        }
    }

    /// Standard output as text; empty where it is not valid UTF-8.
    pub fn stdout(&self) -> (r: String)
        ensures
            r@ == spec_text_of(self.spec_stdout()),
    {
        match from_utf8(self.stdout.as_slice()) {
            Some(text) => text,
            None => String::new(),
        }
    }
}

} // verus!
