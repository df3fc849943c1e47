//! Finding the file that declares a program's id, and bringing the
//! declaration in line with the program's keypair.
//!
//! A Rust program declares its id in `src/lib.rs` or, where that file holds
//! no declaration to change, in another Rust file under `src`: the files are
//! tried in that order and the first one that changes ends the search. A
//! Seahorse program declares it in its one Python source.
//!
//! The library decides which file comes next and what is written; the host
//! reads and writes.

use crate::constants::{dirname, filename};
use crate::framework::Declaration;
use crate::framework_utils::{regex_capture, spec_update, update_rust_program_id, RUST_DECLARE_ID,
    RUST_DECLARE_ID_GROUP};
use crate::frameworks::seahorse::{
    update_seahorse_program_id, SEAHORSE_DECLARE_ID, SEAHORSE_DECLARE_ID_GROUP,
};
use crate::glob::{glob, spec_glob};
use crate::path::{join, path_join};
use vstd::prelude::*;
use vstd::string::*;

verus! {

/// The glob of the Rust sources under `src`, at any depth.
pub const RS_GLOB: &'static str = "*.rs";

/// Where a search stands.
#[derive(Clone, Copy, Debug, PartialEq, Eq, Structural)]
pub enum SearchPhase {
    /// Nothing was asked for yet.
    Start,
    /// The first file is being read.
    First,
    /// The source directory is being listed.
    Listing,
    /// One of the other sources is being read.
    Others,
    /// The search is over.
    Finished,
}

/// What the host reports of the step it was asked to take.
#[derive(Debug)]
pub enum SearchEvent {
    /// The content of the file that was to be read.
    Content(String),
    /// The paths of the files under the directory that was to be listed.
    Sources(Vec<String>),
    /// The step could not be taken, or nothing was asked for yet.
    Nothing,
}

/// A `SearchEvent` as the library reasons about it.
pub enum SearchEventView {
    /// The content of a file.
    Content(Seq<char>),
    /// The paths under a directory.
    Sources(Seq<Seq<char>>),
    /// Nothing.
    Nothing,
}

impl View for SearchEvent {
    type V = SearchEventView;

    open spec fn view(&self) -> SearchEventView {
        match self {
            SearchEvent::Content(content) => SearchEventView::Content(content@),
            SearchEvent::Sources(sources) => SearchEventView::Sources(sources.deep_view()),
            SearchEvent::Nothing => SearchEventView::Nothing,
        }
    }
}

/// What the host is asked to do next.
#[derive(Debug)]
pub enum SearchStep {
    /// Read the file at this path.
    Read(String),
    /// List the files under this directory, at any depth.
    ListSources(String),
    /// Write this content to the file at this path; the search is over.
    Write(String, String),
    /// The search is over and nothing is to be written.
    Done,
}

/// A `SearchStep` as the library reasons about it.
pub enum SearchStepView {
    /// Read a file.
    Read(Seq<char>),
    /// List a directory.
    ListSources(Seq<char>),
    /// Write a content to a path.
    Write(Seq<char>, Seq<char>),
    /// Nothing is left to do.
    Done,
}

impl View for SearchStep {
    type V = SearchStepView;

    open spec fn view(&self) -> SearchStepView {
        match self {
            SearchStep::Read(path) => SearchStepView::Read(path@),
            SearchStep::ListSources(path) => SearchStepView::ListSources(path@),
            SearchStep::Write(path, content) => SearchStepView::Write(path@, content@),
            SearchStep::Done => SearchStepView::Done,
        }
    }
}

/// The state of a search as the library reasons about it.
pub struct SearchView {
    /// Where the search stands.
    pub phase: SearchPhase,
    /// How the program declares its id.
    pub declaration: Declaration,
    /// The id that the program is to declare.
    pub program_id: Seq<char>,
    /// The file that is tried first.
    pub first: Seq<char>,
    /// The directory of the program's sources.
    pub src_dir: Seq<char>,
    /// The other sources, once they are known.
    pub sources: Seq<Seq<char>>,
    /// The position in `sources` of the file being read.
    pub index: nat,
}

/// The state of a search.
#[derive(Debug)]
pub struct ProgramIdSearch {
    phase: SearchPhase,
    declaration: Declaration,
    program_id: String,
    first: String,
    src_dir: String,
    sources: Vec<String>,
    index: usize,
}

impl View for ProgramIdSearch {
    type V = SearchView;

    closed spec fn view(&self) -> SearchView {
        SearchView {
            phase: self.phase,
            declaration: self.declaration,
            program_id: self.program_id@,
            first: self.first@,
            src_dir: self.src_dir@,
            sources: self.sources.deep_view(),
            index: self.index as nat,
        }
    }
}

/// The directory of the sources of the program at `program_path`.
pub open spec fn spec_src_dir(program_path: Seq<char>) -> Seq<char> {
    path_join(program_path, dirname::SRC@)
}

/// The file that is tried first: `src/lib.rs` of a Rust program, the source
/// itself of a Seahorse program.
pub open spec fn spec_first_file(declaration: Declaration, program_path: Seq<char>) -> Seq<char> {
    match declaration {
        Declaration::Rust => path_join(spec_src_dir(program_path), filename::LIB_RS@),
        Declaration::Seahorse => program_path,
    }
}

/// The state of a search before anything was asked for.
pub open spec fn spec_search(
    declaration: Declaration,
    program_path: Seq<char>,
    program_id: Seq<char>,
) -> SearchView {
    SearchView {
        phase: SearchPhase::Start,
        declaration,
        program_id,
        first: spec_first_file(declaration, program_path),
        src_dir: spec_src_dir(program_path),
        sources: Seq::empty(),
        index: 0,
    }
}

/// What becomes of `content` where it is to declare `program_id`: the new
/// content, or nothing where it declares no id or declares that id already.
pub open spec fn spec_updated(
    declaration: Declaration,
    content: Seq<char>,
    program_id: Seq<char>,
) -> Option<Seq<char>> {
    match declaration {
        Declaration::Rust => spec_update(
            content,
            program_id,
            regex_capture(RUST_DECLARE_ID@, RUST_DECLARE_ID_GROUP, content),
        ),
        Declaration::Seahorse => spec_update(
            content,
            program_id,
            regex_capture(SEAHORSE_DECLARE_ID@, SEAHORSE_DECLARE_ID_GROUP, content),
        ),
    }
}

/// The search is over with nothing to write.
pub open spec fn spec_give_up(state: SearchView) -> (SearchView, SearchStepView) {
    (SearchView { phase: SearchPhase::Finished, ..state }, SearchStepView::Done)
}

/// The source at `index` is read next, where there is one.
pub open spec fn spec_read_source(state: SearchView, index: nat) -> (SearchView, SearchStepView) {
    if index < state.sources.len() {
        (
            SearchView { phase: SearchPhase::Others, index, ..state },
            SearchStepView::Read(state.sources[index as int]),
        )
    } else {
        spec_give_up(SearchView { index, ..state })
    }
}

/// One step of a search: from the state and what the host reports of the step
/// asked for last to the next state and the next step.
pub open spec fn spec_search_step(state: SearchView, event: SearchEventView) -> (
    SearchView,
    SearchStepView,
) {
    match state.phase {
        SearchPhase::Start => (
            SearchView { phase: SearchPhase::First, ..state },
            SearchStepView::Read(state.first),
        ),
        SearchPhase::First => match event {
            SearchEventView::Content(content) => match spec_updated(
                state.declaration,
                content,
                state.program_id,
            ) {
                Some(updated) => (
                    SearchView { phase: SearchPhase::Finished, ..state },
                    SearchStepView::Write(state.first, updated),
                ),
                None => match state.declaration {
                    Declaration::Rust => (
                        SearchView { phase: SearchPhase::Listing, ..state },
                        SearchStepView::ListSources(state.src_dir),
                    ),
                    Declaration::Seahorse => spec_give_up(state),
                },
            },
            _ => spec_give_up(state),
        },
        SearchPhase::Listing => match event {
            SearchEventView::Sources(entries) => match spec_glob(
                state.src_dir,
                entries,
                seq![RS_GLOB@],
                Seq::empty(),
                false,
            ) {
                Ok(sources) => spec_read_source(SearchView { sources, ..state }, 0),
                Err(_) => spec_give_up(state),
            },
            _ => spec_give_up(state),
        },
        SearchPhase::Others => match event {
            SearchEventView::Content(content) => match spec_updated(
                state.declaration,
                content,
                state.program_id,
            ) {
                Some(updated) => (
                    SearchView { phase: SearchPhase::Finished, ..state },
                    SearchStepView::Write(state.sources[state.index as int], updated),
                ),
                None => spec_read_source(state, state.index + 1),
            },
            _ => spec_give_up(state),
        },
        SearchPhase::Finished => (state, SearchStepView::Done),
    }
}

/// What holds of every state that a search reaches: while one of the other
/// sources is read, it is one of them.
pub open spec fn spec_search_reachable(state: SearchView) -> bool {
    state.phase == SearchPhase::Others ==> state.index < state.sources.len()
}

/// What becomes of `content` where it is to declare `program_id`.
pub fn updated(declaration: Declaration, content: &str, program_id: &str) -> (r: Option<String>)
    ensures
        r.deep_view() == spec_updated(declaration, content@, program_id@),
{
    match declaration {
        Declaration::Rust => update_rust_program_id(content, program_id),
        Declaration::Seahorse => update_seahorse_program_id(content, program_id),
    }
}

impl ProgramIdSearch {
    /// The search for the declaration of the program at `program_path`, which
    /// is to declare `program_id`.
    pub fn new(declaration: Declaration, program_path: &str, program_id: &str) -> (r: Self)
        ensures
            r@ == spec_search(declaration, program_path@, program_id@),
    {
        let src_dir = join(program_path, dirname::SRC);
        let first = match declaration {
            Declaration::Rust => join(src_dir.as_str(), filename::LIB_RS),
            Declaration::Seahorse => String::from_str(program_path),
        };
        let r = ProgramIdSearch {
            phase: SearchPhase::Start,
            declaration,
            program_id: String::from_str(program_id),
            first,
            src_dir,
            sources: Vec::new(),
            index: 0,
        };
        assert(r.sources.deep_view() =~= Seq::<Seq<char>>::empty());
        r
    }

    /// Whether the search is over.
    pub fn is_finished(&self) -> (r: bool)
        ensures
            r == (self@.phase == SearchPhase::Finished),
    {
        self.phase == SearchPhase::Finished
    }

    /// Ends the search with nothing to write.
    fn give_up(&mut self) -> (r: SearchStep)
        ensures
            (final(self)@, r@) == spec_give_up(old(self)@),
    {
        self.phase = SearchPhase::Finished;
        SearchStep::Done
    }

    /// Asks for the source at `index`, where there is one.
    fn read_source(&mut self, index: usize) -> (r: SearchStep)
        ensures
            (final(self)@, r@) == spec_read_source(old(self)@, index as nat),
    {
        self.index = index;
        if index < self.sources.len() {
            self.phase = SearchPhase::Others;
            SearchStep::Read(self.sources[index].clone())
        } else {
            self.give_up()
        }
    }

    /// Takes what the host reports of the step asked for last and tells what
    /// to do next. The first call, whose event is passed over, asks for the
    /// first file.
    ///
    /// A file that cannot be read, and a directory that cannot be listed,
    /// end the search.
    pub fn step(&mut self, event: SearchEvent) -> (r: SearchStep)
        requires
            spec_search_reachable(old(self)@),
        ensures
            (final(self)@, r@) == spec_search_step(old(self)@, event@),
            spec_search_reachable(final(self)@),
    {
        match self.phase {
            SearchPhase::Start => {
                self.phase = SearchPhase::First;
                SearchStep::Read(self.first.clone())
            },
            SearchPhase::First => match event {
                SearchEvent::Content(content) => {
                    match updated(
                        self.declaration,
                        content.as_str(),
                        self.program_id.as_str(),
                    ) {
                        Some(new_content) => {
                            self.phase = SearchPhase::Finished;
                            SearchStep::Write(self.first.clone(), new_content)
                        },
                        None => match self.declaration {
                            Declaration::Rust => {
                                self.phase = SearchPhase::Listing;
                                SearchStep::ListSources(self.src_dir.clone())
                            },
                            Declaration::Seahorse => self.give_up(),
                        },
                    }
                },
                _ => self.give_up(),
            },
            SearchPhase::Listing => match event {
                SearchEvent::Sources(entries) => {
                    let mut wanted: Vec<String> = Vec::new();
                    wanted.push(String::from_str(RS_GLOB));
                    let unwanted: Vec<String> = Vec::new();
                    assert(wanted.deep_view() =~= seq![RS_GLOB@]);
                    assert(unwanted.deep_view() =~= Seq::<Seq<char>>::empty());
                    match glob(self.src_dir.as_str(), &entries, &wanted, &unwanted, false) {
                        Ok(sources) => {
                            self.sources = sources;
                            self.read_source(0)
                        },
                        Err(_) => self.give_up(),
                    }
                },
                _ => self.give_up(),
            },
            SearchPhase::Others => match event {
                SearchEvent::Content(content) => {
                    match updated(
                        self.declaration,
                        content.as_str(),
                        self.program_id.as_str(),
                    ) {
                        Some(new_content) => {
                            let path = self.sources[self.index].clone();
                            self.phase = SearchPhase::Finished;
                            SearchStep::Write(path, new_content)
                        },
                        None => {
                            assert(self.sources.deep_view().len() == self.sources.len());
                            let next = self.index + 1;
                            self.read_source(next)
                        },
                    }
                },
                _ => self.give_up(),
            },
            SearchPhase::Finished => SearchStep::Done,
        }
    }
}

} // verus!
