//! Lists of strings in which nothing occurs twice.

use crate::text::str_eq;
use vstd::prelude::*;
use vstd::string::*;

verus! {

/// The items of `s` in the order of their first occurrence, each once.
pub open spec fn spec_unique(s: Seq<Seq<char>>) -> Seq<Seq<char>>
    decreases s.len(),
{
    if s.len() == 0 {
        Seq::empty()
    } else {
        spec_push_unique(spec_unique(s.drop_last()), s.last())
    }
}

/// `s` with `item` added at the end, unless `s` holds it already.
pub open spec fn spec_push_unique(s: Seq<Seq<char>>, item: Seq<char>) -> Seq<Seq<char>> {
    if s.contains(item) {
        s
    } else {
        s.push(item)
    }
}

/// Whether `items` holds `item`.
pub fn contains(items: &Vec<String>, item: &str) -> (r: bool)
    ensures
        r == items.deep_view().contains(item@),
{
    let mut i: usize = 0;
    while i < items.len()
        invariant
            i <= items.len(),
            forall|j: int| 0 <= j < i ==> items.deep_view()[j] != item@,
        decreases items.len() - i,
    {
        if str_eq(items[i].as_str(), item) {
            assert(items.deep_view()[i as int] == item@);
            return true;
        }
        i += 1;
    }
    false
}

/// Adds `item` at the end of `items`, unless `items` holds it already.
pub fn push_unique(items: &mut Vec<String>, item: &str)
    ensures
        final(items).deep_view() == spec_push_unique(old(items).deep_view(), item@),
{
    if !contains(items, item) {
        let ghost before = items.deep_view();
        items.push(String::from_str(item));
        assert(items.deep_view() =~= before.push(item@));
    }
}

/// The items of `items` in the order of their first occurrence, each once.
pub fn unique(items: &Vec<String>) -> (r: Vec<String>)
    ensures
        r.deep_view() == spec_unique(items.deep_view()),
{
    let mut out: Vec<String> = Vec::new();
    let mut i: usize = 0;
    assert(items.deep_view().subrange(0, 0) =~= Seq::<Seq<char>>::empty());
    assert(out.deep_view() =~= Seq::<Seq<char>>::empty());
    while i < items.len()
        invariant
            i <= items.len(),
            out.deep_view() == spec_unique(items.deep_view().subrange(0, i as int)),
        decreases items.len() - i,
    {
        assert(items.deep_view().subrange(0, i + 1).drop_last() =~= items.deep_view().subrange(
            0,
            i as int,
        ));
        push_unique(&mut out, items[i].as_str());
        i += 1;
    }
    assert(items.deep_view().subrange(0, items.len() as int) =~= items.deep_view());
    out
}

/// In `spec_unique(s)` nothing occurs twice, and it holds exactly the items of `s`.
pub proof fn lemma_unique(s: Seq<Seq<char>>)
    ensures
        spec_unique(s).no_duplicates(),
        forall|item: Seq<char>| spec_unique(s).contains(item) <==> s.contains(item),
        spec_unique(s).len() <= s.len(),
    decreases s.len(),
{
    if s.len() > 0 {
        let init = s.drop_last();
        let u = spec_unique(init);
        lemma_unique(init);
        let r = spec_unique(s);
        assert forall|item: Seq<char>| r.contains(item) <==> s.contains(item) by {
            if s.contains(item) {
                let i = choose|i: int| 0 <= i < s.len() && s[i] == item;
                if i < s.len() - 1 {
                    assert(init[i] == item);
                    assert(init.contains(item));
                    assert(u.contains(item));
                    let j = choose|j: int| 0 <= j < u.len() && u[j] == item;
                    assert(r[j] == item);
                } else if !u.contains(item) {
                    assert(r[u.len() as int] == item);
                }
                assert(r.contains(item));
            }
            if r.contains(item) {
                let j = choose|j: int| 0 <= j < r.len() && r[j] == item;
                if j < u.len() {
                    assert(u[j] == item);
                    assert(u.contains(item));
                    assert(init.contains(item));
                    let i = choose|i: int| 0 <= i < init.len() && init[i] == item;
                    assert(s[i] == item);
                } else {
                    assert(s[s.len() - 1] == item);
                }
                assert(s.contains(item));
            }
        }
    }
}

} // verus!
