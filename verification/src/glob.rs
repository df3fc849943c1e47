//! Selecting the paths of a directory by include and exclude globs.

use crate::path::{path_strip_prefix, strip_prefix};
use globset::{GlobBuilder, GlobSet, GlobSetBuilder};
use vstd::prelude::*;
use vstd::string::*;

verus! {

/// A set of compiled globs.
#[verifier::external_type_specification]
#[verifier::external_body]
pub struct ExGlobSet(GlobSet);

/// A set of globs that is still being filled.
#[verifier::external_type_specification]
#[verifier::external_body]
pub struct ExGlobSetBuilder(GlobSetBuilder);

/// The error type of the glob crate.
#[verifier::external_type_specification]
#[verifier::external_body]
pub struct ExGlobSetError(globset::Error);

/// The globs added to `builder` so far, in order: each glob's text, and
/// whether a path separator has to be matched literally.
pub uninterp spec fn builder_globs(builder: GlobSetBuilder) -> Seq<(Seq<char>, bool)>;

/// The globs that `set` was built from, in order.
pub uninterp spec fn set_globs(set: GlobSet) -> Seq<(Seq<char>, bool)>;

/// Whether `globset::GlobBuilder::build` accepts the glob `pattern` with the
/// given separator option.
pub uninterp spec fn glob_parses(pattern: Seq<char>, literal_separator: bool) -> bool;

/// Whether `globset::GlobSetBuilder::build` succeeds on `globs`.
pub uninterp spec fn globs_compile(globs: Seq<(Seq<char>, bool)>) -> bool;

/// Whether `globset::GlobSet::is_match` holds of `path` for a set built from
/// `globs`: whether one of them matches it.
pub uninterp spec fn globs_match(globs: Seq<(Seq<char>, bool)>, path: Seq<char>) -> bool;

/// `globset::GlobSetBuilder::new`: a builder without globs.
#[verifier::external_body]
fn new_builder() -> (r: GlobSetBuilder)
    ensures
        builder_globs(r) == Seq::<(Seq<char>, bool)>::empty(),
{
    GlobSetBuilder::new()
}

/// Parses `pattern` with `globset::GlobBuilder` and the given
/// `literal_separator` option, and adds the glob to `builder` with
/// `globset::GlobSetBuilder::add`. Where the pattern does not parse, the
/// builder stays as it was.
#[verifier::external_body]
fn add_glob(builder: &mut GlobSetBuilder, pattern: &str, literal_separator: bool) -> (r: Result<
    (),
    globset::Error,
>)
    ensures
        r is Ok <==> glob_parses(pattern@, literal_separator),
        builder_globs(*final(builder)) == if r is Ok {
            builder_globs(*old(builder)).push((pattern@, literal_separator))
        } else {
            builder_globs(*old(builder))
        },
{
    let glob = GlobBuilder::new(pattern).literal_separator(literal_separator).build()?;
    builder.add(glob);
    Ok(())
}

/// `globset::GlobSetBuilder::build`: the set of the globs added so far. A
/// builder without globs always yields a set.
#[verifier::external_body]
fn build_set(builder: &GlobSetBuilder) -> (r: Result<GlobSet, globset::Error>)
    ensures
        r is Ok <==> globs_compile(builder_globs(*builder)),
        r matches Ok(set) ==> set_globs(set) == builder_globs(*builder),
        builder_globs(*builder).len() == 0 ==> r is Ok,
{
    builder.build()
}

/// `globset::GlobSet::is_match`: whether one of the globs of `set` matches
/// `path`. A set without globs matches nothing.
#[verifier::external_body]
fn is_match(set: &GlobSet, path: &str) -> (r: bool)
    ensures
        r == globs_match(set_globs(*set), path@),
        set_globs(*set).len() == 0 ==> !r,
{
    set.is_match(path)
}

/// Why a selection by globs failed.
#[derive(Debug)]
pub enum GlobError {
    /// This glob is malformed.
    Pattern(String),
    /// The globs are well formed but cannot be compiled into one set.
    TooLarge,
}

/// `patterns`, each with the separator option.
pub open spec fn spec_globs(patterns: Seq<Seq<char>>, literal_separator: bool) -> Seq<
    (Seq<char>, bool),
> {
    Seq::new(patterns.len(), |i: int| (patterns[i], literal_separator))
}

/// The position of the first of `patterns` that is malformed, or their number
/// where all are well formed.
pub open spec fn spec_first_malformed(patterns: Seq<Seq<char>>, literal_separator: bool) -> int
    decreases patterns.len(),
{
    if patterns.len() == 0 {
        0
    } else {
        let before = spec_first_malformed(patterns.drop_last(), literal_separator);
        if before < patterns.len() - 1 {
            before
        } else if glob_parses(patterns.last(), literal_separator) {
            patterns.len() as int
        } else {
            patterns.len() - 1
        }
    }
}

/// What compiling `patterns` into a set fails with, if it does.
pub open spec fn spec_globset_error(patterns: Seq<Seq<char>>, literal_separator: bool) -> Option<
    GlobErrorView,
> {
    let first = spec_first_malformed(patterns, literal_separator);
    if first < patterns.len() {
        Some(GlobErrorView::Pattern(patterns[first]))
    } else if !globs_compile(spec_globs(patterns, literal_separator)) {
        Some(GlobErrorView::TooLarge)
    } else {
        None
    }
}

/// A `GlobError` as the library reasons about it.
pub enum GlobErrorView {
    /// This glob is malformed.
    Pattern(Seq<char>),
    /// The globs cannot be compiled into one set.
    TooLarge,
}

impl View for GlobError {
    type V = GlobErrorView;

    open spec fn view(&self) -> GlobErrorView {
        match self {
            GlobError::Pattern(pattern) => GlobErrorView::Pattern(pattern@),
            GlobError::TooLarge => GlobErrorView::TooLarge,
        }
    }
}

/// Whether the globs select `entry`, a path under `base`: its path relative
/// to `base` matches one of `wanted` and none of `unwanted`.
pub open spec fn spec_selects(
    base: Seq<char>,
    wanted: Seq<Seq<char>>,
    unwanted: Seq<Seq<char>>,
    literal_separator: bool,
    entry: Seq<char>,
) -> bool {
    match path_strip_prefix(entry, base) {
        Some(relative) => globs_match(spec_globs(wanted, literal_separator), relative)
            && !globs_match(spec_globs(unwanted, literal_separator), relative),
        None => false,
    }
}

/// What a selection among `entries` yields: the selected entries in order,
/// or the error of the include globs, or else that of the exclude globs.
pub open spec fn spec_glob(
    base: Seq<char>,
    entries: Seq<Seq<char>>,
    wanted: Seq<Seq<char>>,
    unwanted: Seq<Seq<char>>,
    literal_separator: bool,
) -> Result<Seq<Seq<char>>, GlobErrorView> {
    match spec_globset_error(wanted, literal_separator) {
        Some(error) => Err(error),
        None => match spec_globset_error(unwanted, literal_separator) {
            Some(error) => Err(error),
            None => Ok(
                entries.filter(
                    |entry: Seq<char>| spec_selects(base, wanted, unwanted, literal_separator, entry),
                ),
            ),
        },
    }
}

/// Compiles `globs` into one set.
fn create_globset(globs: &Vec<String>, literal_separator: bool) -> (r: Result<GlobSet, GlobError>)
    ensures
        match r {
            Ok(set) => spec_globset_error(globs.deep_view(), literal_separator) is None
                && set_globs(set) == spec_globs(globs.deep_view(), literal_separator),
            Err(error) => spec_globset_error(globs.deep_view(), literal_separator) == Some(
                error@,
            ),
        },
{
    let mut builder = new_builder();
    let ghost patterns = globs.deep_view();
    let mut i: usize = 0;
    assert(patterns.subrange(0, 0) =~= Seq::<Seq<char>>::empty());
    assert(spec_globs(Seq::<Seq<char>>::empty(), literal_separator) =~= Seq::<
        (Seq<char>, bool),
    >::empty());
    while i < globs.len()
        invariant
            i <= globs.len(),
            patterns == globs.deep_view(),
            spec_first_malformed(patterns.subrange(0, i as int), literal_separator) == i,
            builder_globs(builder) == spec_globs(patterns.subrange(0, i as int), literal_separator),
        decreases globs.len() - i,
    {
        let ghost before = patterns.subrange(0, i as int);
        let ghost upto = patterns.subrange(0, i + 1);
        assert(upto.drop_last() =~= before);
        assert(upto.last() == patterns[i as int]);
        match add_glob(&mut builder, globs[i].as_str(), literal_separator) {
            Ok(()) => {
                assert(spec_globs(before, literal_separator).push(
                    (patterns[i as int], literal_separator),
                ) =~= spec_globs(upto, literal_separator));
            },
            Err(_) => {
                proof {
                    lemma_first_malformed_stays(patterns, literal_separator, i + 1);
                }
                return Err(GlobError::Pattern(globs[i].clone()));
            },
        }
        i += 1;
    }
    assert(patterns.subrange(0, globs.len() as int) =~= patterns);
    match build_set(&builder) {
        Ok(set) => Ok(set),
        Err(_) => Err(GlobError::TooLarge),
    }
}

/// A malformed glob among the first `n` stays the first malformed one of the
/// whole list.
proof fn lemma_first_malformed_stays(patterns: Seq<Seq<char>>, literal_separator: bool, n: int)
    requires
        0 <= n <= patterns.len(),
        spec_first_malformed(patterns.subrange(0, n), literal_separator) < n,
    ensures
        spec_first_malformed(patterns, literal_separator) == spec_first_malformed(
            patterns.subrange(0, n),
            literal_separator,
        ),
    decreases patterns.len() - n,
{
    if n < patterns.len() {
        assert(patterns.subrange(0, n + 1).drop_last() =~= patterns.subrange(0, n));
        lemma_first_malformed_stays(patterns, literal_separator, n + 1);
    } else {
        assert(patterns.subrange(0, n) =~= patterns);
    }
}

/// Selects among `entries`, the paths found under the directory `base`, those
/// whose path relative to `base` matches one of `include_globs` and none of
/// `exclude_globs`. The selected paths keep their order.
///
/// With `literal_separator`, `*` and `?` in a glob do not match a path
/// separator. The selection fails where a glob is malformed, the include
/// globs being looked at first, or where the globs of a list cannot be
/// compiled.
pub fn glob(
    base: &str,
    entries: &Vec<String>,
    include_globs: &Vec<String>,
    exclude_globs: &Vec<String>,
    literal_separator: bool,
) -> (r: Result<Vec<String>, GlobError>)
    ensures
        match r {
            Ok(matches) => spec_glob(
                base@,
                entries.deep_view(),
                include_globs.deep_view(),
                exclude_globs.deep_view(),
                literal_separator,
            ) == Ok::<Seq<Seq<char>>, GlobErrorView>(matches.deep_view()),
            Err(error) => spec_glob(
                base@,
                entries.deep_view(),
                include_globs.deep_view(),
                exclude_globs.deep_view(),
                literal_separator,
            ) == Err::<Seq<Seq<char>>, GlobErrorView>(error@),
        },
{
    let include_globset = match create_globset(include_globs, literal_separator) {
        Ok(set) => set,
        Err(error) => {
            return Err(error);
        },
    };
    let exclude_globset = match create_globset(exclude_globs, literal_separator) {
        Ok(set) => set,
        Err(error) => {
            return Err(error);
        },
    };
    let ghost selects = |entry: Seq<char>|
        spec_selects(
            base@,
            include_globs.deep_view(),
            exclude_globs.deep_view(),
            literal_separator,
            entry,
        );
    let ghost all = entries.deep_view();
    let mut matches: Vec<String> = Vec::new();
    let mut i: usize = 0;
    proof {
        assert(all.subrange(0, 0) =~= Seq::<Seq<char>>::empty());
        reveal(Seq::filter);
        assert(matches.deep_view() =~= all.subrange(0, 0).filter(selects));
    }
    while i < entries.len()
        invariant
            i <= entries.len(),
            all == entries.deep_view(),
            set_globs(include_globset) == spec_globs(include_globs.deep_view(), literal_separator),
            set_globs(exclude_globset) == spec_globs(exclude_globs.deep_view(), literal_separator),
            selects == (|entry: Seq<char>|
                spec_selects(
                    base@,
                    include_globs.deep_view(),
                    exclude_globs.deep_view(),
                    literal_separator,
                    entry,
                )),
            matches.deep_view() == all.subrange(0, i as int).filter(selects),
        decreases entries.len() - i,
    {
        let entry = &entries[i];
        let is_selected = match strip_prefix(entry.as_str(), base) {
            Some(relative) => is_match(&include_globset, relative.as_str()) && !is_match(
                &exclude_globset,
                relative.as_str(),
            ),
            None => false,
        };
        proof {
            assert(all.subrange(0, i + 1) =~= all.subrange(0, i as int).push(all[i as int]));
            all.subrange(0, i as int).lemma_filter_push(all[i as int], selects);
            assert(is_selected == selects(all[i as int]));
        }
        if is_selected {
            let ghost before = matches.deep_view();
            matches.push(entry.clone());
            assert(matches.deep_view() =~= before.push(all[i as int]));
        }
        i += 1;
    }
    assert(all.subrange(0, entries.len() as int) =~= all);
    Ok(matches)
}

} // verus!
