//! String helpers shared by the rest of the library.

use vstd::prelude::*;
use vstd::string::*;
use vstd::utf8::*;

verus! {

/// Whether `s` ends with `suffix`.
pub open spec fn spec_ends_with(s: Seq<char>, suffix: Seq<char>) -> bool {
    suffix.len() <= s.len() && s.subrange(s.len() - suffix.len(), s.len() as int) == suffix
}

/// `s` with every trailing repetition of `suffix` removed.
pub open spec fn spec_trim_end_matches(s: Seq<char>, suffix: Seq<char>) -> Seq<char>
    decreases s.len(),
{
    if suffix.len() > 0 && spec_ends_with(s, suffix) {
        spec_trim_end_matches(s.subrange(0, s.len() - suffix.len()), suffix)
    } else {
        s
    }
}

/// `s` with every occurrence of the character `from` replaced by the text
/// `to`.
pub open spec fn spec_replace_char(s: Seq<char>, from: char, to: Seq<char>) -> Seq<char>
    decreases s.len(),
{
    if s.len() == 0 {
        Seq::empty()
    } else if s.last() == from {
        spec_replace_char(s.drop_last(), from, to) + to
    } else {
        spec_replace_char(s.drop_last(), from, to).push(s.last())
    }
}

/// Whether `c` has the Unicode property `White_Space`.
pub open spec fn spec_is_whitespace(c: char) -> bool {
    let u = c as u32;
    ||| 0x09 <= u <= 0x0d
    ||| u == 0x20
    ||| u == 0x85
    ||| u == 0xa0
    ||| u == 0x1680
    ||| 0x2000 <= u <= 0x200a
    ||| u == 0x2028
    ||| u == 0x2029
    ||| u == 0x202f
    ||| u == 0x205f
    ||| u == 0x3000
}

/// The maximal runs of characters of `s` that are not white space, in order.
///
/// Defined from the back: the last character either is white space and adds
/// nothing, or extends the word before it, or starts a new word.
pub open spec fn spec_split_whitespace(s: Seq<char>) -> Seq<Seq<char>>
    decreases s.len(),
{
    if s.len() == 0 {
        Seq::empty()
    } else {
        let init = s.drop_last();
        let words = spec_split_whitespace(init);
        if spec_is_whitespace(s.last()) {
            words
        } else if init.len() > 0 && !spec_is_whitespace(init.last()) {
            words.drop_last().push(words.last().push(s.last()))
        } else {
            words.push(seq![s.last()])
        }
    }
}

/// The decimal digits of `n`, most significant first.
pub open spec fn spec_decimal(n: nat) -> Seq<char>
    decreases n,
{
    if n < 10 {
        seq!["0123456789"@[n as int]]
    } else {
        spec_decimal(n / 10).push("0123456789"@[(n % 10) as int])
    }
}

/// Compares two string slices.
pub fn str_eq(a: &str, b: &str) -> (r: bool)
    ensures
        r == (a@ == b@),
{
    let x = a.as_bytes();
    let y = b.as_bytes();
    proof {
        encode_utf8_decode_utf8(a@);
        encode_utf8_decode_utf8(b@);
    }
    if x.len() != y.len() {
        return false;
    }
    let n = x.len();
    let mut i: usize = 0;
    while i < n
        invariant
            n == x@.len(),
            n == y@.len(),
            i <= n,
            x@ == encode_utf8(a@),
            y@ == encode_utf8(b@),
            forall|j: int| 0 <= j < i ==> x@[j] == y@[j],
        decreases n - i,
    {
        if x[i] != y[i] {
            return false;
        }
        i += 1;
    }
    assert(x@ =~= y@);
    true
}

/// Whether `s` ends with `suffix`.
pub fn ends_with(s: &str, suffix: &str) -> (r: bool)
    ensures
        r == spec_ends_with(s@, suffix@),
{
    let n = s.unicode_len();
    let m = suffix.unicode_len();
    if m > n {
        return false;
    }
    str_eq(s.substring_char(n - m, n), suffix)
}

/// Removes every trailing repetition of `suffix` from `s`.
pub fn trim_end_matches<'a>(s: &'a str, suffix: &str) -> (r: &'a str)
    ensures
        r@ == spec_trim_end_matches(s@, suffix@),
{
    let m = suffix.unicode_len();
    let mut cur = s;
    if m == 0 {
        return cur;
    }
    while ends_with(cur, suffix)
        invariant
            m == suffix@.len(),
            m > 0,
            spec_trim_end_matches(cur@, suffix@) == spec_trim_end_matches(s@, suffix@),
        decreases cur@.len(),
    {
        let n = cur.unicode_len();
        cur = cur.substring_char(0, n - m);
    }
    cur
}

/// Replaces every occurrence of the character `from` in `s` by `to`.
pub fn replace_char(s: &str, from: char, to: &str) -> (r: String)
    ensures
        r@ == spec_replace_char(s@, from, to@),
{
    let n = s.unicode_len();
    let mut out = String::new();
    let mut i: usize = 0;
    assert(s@.subrange(0, 0) =~= Seq::<char>::empty());
    while i < n
        invariant
            n == s@.len(),
            i <= n,
            out@ == spec_replace_char(s@.subrange(0, i as int), from, to@),
        decreases n - i,
    {
        let ghost before = s@.subrange(0, i as int);
        assert(s@.subrange(0, i + 1).drop_last() =~= before);
        assert(s@.subrange(0, i + 1).last() == s@[i as int]);
        if s.get_char(i) == from {
            out.append(to);
        } else {
            out.append(s.substring_char(i, i + 1));
            assert(s@.subrange(i as int, i + 1) =~= seq![s@[i as int]]);
            assert(out@ =~= spec_replace_char(before, from, to@).push(s@[i as int]));
        }
        i += 1;
    }
    assert(s@.subrange(0, n as int) =~= s@);
    out
}

/// Whether `c` has the Unicode property `White_Space`.
pub fn is_whitespace(c: char) -> (r: bool)
    ensures
        r == spec_is_whitespace(c),
{
    let u = c as u32;
    (0x09 <= u && u <= 0x0d) || u == 0x20 || u == 0x85 || u == 0xa0 || u == 0x1680 || (0x2000 <= u
        && u <= 0x200a) || u == 0x2028 || u == 0x2029 || u == 0x202f || u == 0x205f || u == 0x3000
}

/// Splits `s` into its words: the maximal runs of characters that are not white space.
pub fn split_whitespace(s: &str) -> (r: Vec<String>)
    ensures
        r.deep_view() == spec_split_whitespace(s@),
{
    let n = s.unicode_len();
    let mut done: Vec<String> = Vec::new();
    let mut word = String::new();
    let mut in_word = false;
    let mut i: usize = 0;
    assert(s@.subrange(0, 0) =~= Seq::<char>::empty());
    assert(done.deep_view() =~= Seq::<Seq<char>>::empty());
    while i < n
        invariant
            n == s@.len(),
            i <= n,
            in_word <==> i > 0 && !spec_is_whitespace(s@[i - 1]),
            in_word <==> word@.len() > 0,
            spec_split_whitespace(s@.subrange(0, i as int)) == if in_word {
                done.deep_view().push(word@)
            } else {
                done.deep_view()
            },
        decreases n - i,
    {
        let c = s.get_char(i);
        let ghost before = s@.subrange(0, i as int);
        let ghost after = s@.subrange(0, i + 1);
        let ghost finished = done.deep_view();
        let ghost current = word@;
        assert(after.drop_last() =~= before);
        assert(after.last() == c);
        assert(i > 0 ==> before.last() == s@[i - 1]);
        if is_whitespace(c) {
            if in_word {
                done.push(word);
                word = String::new();
                in_word = false;
                assert(done.deep_view() =~= finished.push(current));
            }
        } else {
            let ghost was_in_word = in_word;
            word.append(s.substring_char(i, i + 1));
            in_word = true;
            proof {
                assert(s@.subrange(i as int, i + 1) =~= seq![c]);
                assert(word@ =~= current.push(c));
                assert(current.len() == 0 ==> word@ =~= seq![c]);
                assert(finished.push(current).drop_last() =~= finished);
                assert(finished.push(current).last() == current);
                assert(spec_split_whitespace(after) == if was_in_word {
                    finished.push(current.push(c))
                } else {
                    finished.push(seq![c])
                });
            }
        }
        i += 1;
    }
    assert(s@.subrange(0, n as int) =~= s@);
    if in_word {
        let ghost finished = done.deep_view();
        done.push(word);
        assert(done.deep_view() =~= finished.push(word@));
    }
    done
}

/// The decimal digits of `n`, most significant first.
pub fn decimal(n: usize) -> (r: String)
    ensures
        r@ == spec_decimal(n as nat),
{
    let digits = "0123456789";
    proof {
        reveal_strlit("0123456789");
    }
    let mut rest = n / 10;
    let mut out = String::from_str(digits.substring_char(n % 10, n % 10 + 1));
    let ghost mut tail: Seq<char> = seq![digits@[(n % 10) as int]];
    assert(out@ =~= tail);
    while rest > 0
        invariant
            digits@ == "0123456789"@,
            digits@.len() == 10,
            out@ == tail,
            tail.len() > 0,
            forall|m: nat| m == rest && m > 0 ==> spec_decimal(n as nat) == spec_decimal(m) + tail,
            rest == 0 ==> spec_decimal(n as nat) == tail,
        decreases rest,
    {
        let d = rest % 10;
        let mut next = String::from_str(digits.substring_char(d, d + 1));
        next.append(out.as_str());
        proof {
            let ghost head: Seq<char> = seq![digits@[d as int]];
            assert(next@ =~= head + tail);
            assert(spec_decimal(rest as nat) == if rest < 10 {
                head
            } else {
                spec_decimal((rest / 10) as nat).push(digits@[d as int])
            });
            assert(rest >= 10 ==> spec_decimal((rest / 10) as nat).push(digits@[d as int]) + tail
                =~= spec_decimal((rest / 10) as nat) + (head + tail));
            tail = head + tail;
        }
        out = next;
        rest = rest / 10;
    }
    out
}

/// The UTF-8 encoding of a concatenation is the concatenation of the
/// encodings.
pub proof fn lemma_encode_concat(a: Seq<char>, b: Seq<char>)
    ensures
        encode_utf8(a + b) == encode_utf8(a) + encode_utf8(b),
    decreases a.len(),
{
    if a.len() == 0 {
        assert(a + b =~= b);
        assert(encode_utf8(a) + encode_utf8(b) =~= encode_utf8(b));
    } else {
        lemma_encode_concat(a.drop_first(), b);
        assert((a + b).drop_first() =~= a.drop_first() + b);
        assert((a + b)[0] == a[0]);
        assert(encode_utf8(a + b) =~= encode_utf8(a) + encode_utf8(b));
    }
}

} // verus!
