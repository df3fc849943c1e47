//! File system paths, held as strings.
//!
//! What a path's components are is decided by `std::path` for the platform the
//! library is built for; the library only names those results and reasons
//! about them.

use std::path::Path;
use vstd::prelude::*;
use vstd::string::*;

verus! {

/// What `std::path::Path::file_name` returns for `path`.
pub uninterp spec fn path_file_name(path: Seq<char>) -> Option<Seq<char>>;

/// What `std::path::Path::parent` returns for `path`.
pub uninterp spec fn path_parent(path: Seq<char>) -> Option<Seq<char>>;

/// What `std::path::Path::join` returns for `base` and `path`.
pub uninterp spec fn path_join(base: Seq<char>, path: Seq<char>) -> Seq<char>;

/// What `std::path::Path::strip_prefix` returns for `path` and `base`.
pub uninterp spec fn path_strip_prefix(path: Seq<char>, base: Seq<char>) -> Option<Seq<char>>;

/// The position of the last `c` in `s`, or `-1` where there is none.
pub open spec fn spec_last_index_of(s: Seq<char>, c: char) -> int
    decreases s.len(),
{
    if s.len() == 0 {
        -1
    } else if s.last() == c {
        s.len() - 1
    } else {
        spec_last_index_of(s.drop_last(), c)
    }
}

/// The extension of a file name: what follows its last dot, unless the name
/// has no dot or its only dot comes first.
pub open spec fn spec_extension_of(name: Seq<char>) -> Option<Seq<char>> {
    let dot = spec_last_index_of(name, '.');
    if dot <= 0 {
        None
    } else {
        Some(name.subrange(dot + 1, name.len() as int))
    }
}

/// The extension of the file that `path` names, without the leading dot.
pub open spec fn spec_extension(path: Seq<char>) -> Option<Seq<char>> {
    match path_file_name(path) {
        Some(name) => spec_extension_of(name),
        None => None,
    }
}

/// `std::path::Path::file_name`: the final component of `path`, if it has one.
/// The contract only names the result.
#[verifier::external_body]
pub(crate) fn file_name(path: &str) -> (r: Option<String>)
    ensures
        r.deep_view() == path_file_name(path@),
{
    Path::new(path).file_name().and_then(|name| name.to_str()).map(|name| name.to_owned())
}

/// `std::path::Path::parent`: `path` without its final component, if it has
/// one. The contract only names the result.
#[verifier::external_body]
pub(crate) fn parent(path: &str) -> (r: Option<String>)
    ensures
        r.deep_view() == path_parent(path@),
{
    Path::new(path).parent().and_then(|dir| dir.to_str()).map(|dir| dir.to_owned())
}

/// `std::path::Path::join`: `path` adjoined to `base`. The contract only names
/// the result.
#[verifier::external_body]
pub(crate) fn join(base: &str, path: &str) -> (r: String)
    ensures
        r@ == path_join(base@, path@),
{
    Path::new(base).join(path).to_string_lossy().into_owned()
}

/// `std::path::Path::strip_prefix`: `path` relative to `base`, where `base` is
/// a prefix of it. The contract only names the result.
#[verifier::external_body]
pub(crate) fn strip_prefix(path: &str, base: &str) -> (r: Option<String>)
    ensures
        r.deep_view() == path_strip_prefix(path@, base@),
{
    Path::new(path).strip_prefix(base).ok().and_then(|rest| rest.to_str()).map(
        |rest| rest.to_owned(),
    )
}

/// The position of the last `c` in `s`.
fn last_index_of(s: &str, c: char) -> (r: Option<usize>)
    ensures
        match r {
            Some(i) => i == spec_last_index_of(s@, c),
            None => spec_last_index_of(s@, c) == -1,
        },
{
    let n = s.unicode_len();
    let mut i: usize = n;
    assert(s@.subrange(0, n as int) =~= s@);
    while i > 0
        invariant
            n == s@.len(),
            i <= n,
            spec_last_index_of(s@, c) == spec_last_index_of(s@.subrange(0, i as int), c),
        decreases i,
    {
        let ghost prefix = s@.subrange(0, i as int);
        assert(prefix.last() == s@[i - 1]);
        assert(prefix.drop_last() =~= s@.subrange(0, i - 1));
        if s.get_char(i - 1) == c {
            return Some(i - 1);
        }
        i -= 1;
    }
    None
}

/// The extension of the file that `path` names, without the leading dot.
///
/// There is none where the path has no file name, where the file name has no
/// dot, and where its only dot comes first.
pub fn extension(path: &str) -> (r: Option<String>)
    ensures
        r.deep_view() == spec_extension(path@),
{
    match file_name(path) {
        None => None,
        Some(name) => {
            let n = name.as_str().unicode_len();
            match last_index_of(name.as_str(), '.') {
                None => None,
                Some(dot) => {
                    if dot == 0 {
                        None
                    } else {
                        proof {
                            lemma_last_index_in_bounds(name@, '.');
                        }
                        Some(String::from_str(name.as_str().substring_char(dot + 1, n)))
                    }
                },
            }
        },
    }
}

/// The last position of a character lies inside the sequence.
pub proof fn lemma_last_index_in_bounds(s: Seq<char>, c: char)
    ensures
        -1 <= spec_last_index_of(s, c) < s.len(),
        spec_last_index_of(s, c) >= 0 ==> s[spec_last_index_of(s, c)] == c,
    decreases s.len(),
{
    if s.len() > 0 && s.last() != c {
        lemma_last_index_in_bounds(s.drop_last(), c);
    }
}

} // verus!
