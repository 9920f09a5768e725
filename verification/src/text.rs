//! Text primitives shared by the classifier and the parameter extractor:
//! ASCII case folding, whitespace tokenization, substring search, and
//! joining token sequences back into a single string.

use vstd::prelude::*;

verus! {

/// The whitespace characters that separate tokens: the ASCII subset of
/// Rust's `char::is_whitespace`, which covers every utterance typed at a
/// plain terminal.
pub open spec fn is_space(c: char) -> bool {
    c == ' ' || c == '\t' || c == '\n' || c == '\r' || c == '\u{b}' || c == '\u{c}'
}

/// ASCII case folding of a single character: `A`..`Z` map to `a`..`z`,
/// everything else is unchanged.
pub open spec fn lower_char(c: char) -> char {
    if 'A' <= c && c <= 'Z' {
        ((c as u8) + 32) as char
    } else {
        c
    }
}

/// ASCII case folding of a whole character sequence.
pub open spec fn lower(s: Seq<char>) -> Seq<char> {
    s.map_values(|c: char| lower_char(c))
}

/// Executable ASCII case folding of one character.
pub fn to_lower_char(c: char) -> (r: char)
    ensures
        r == lower_char(c),
{
    if 'A' <= c && c <= 'Z' {
        ((c as u8) + 32) as char
    } else {
        c
    }
}

/// Executable whitespace test matching `is_space`.
pub fn is_space_char(c: char) -> (r: bool)
    ensures
        r == is_space(c),
{
    c == ' ' || c == '\t' || c == '\n' || c == '\r' || c == '\u{b}' || c == '\u{c}'
}

/// `needle` occurs in `hay` starting at position `k`.
pub open spec fn matches_at(hay: Seq<char>, needle: Seq<char>, k: int) -> bool {
    &&& 0 <= k
    &&& k + needle.len() <= hay.len()
    &&& hay.subrange(k, k + needle.len() as int) == needle
}

/// `needle` occurs somewhere in `hay` as a contiguous substring.
pub open spec fn contains_sub(hay: Seq<char>, needle: Seq<char>) -> bool {
    exists|k: int| matches_at(hay, needle, k)
}

/// Substring search on the case-folded haystack: decides whether `needle`
/// occurs in `lower(hay@)`.  The classifier calls this with its (already
/// lowercase) keywords, so keyword matching is case-insensitive in the
/// utterance while the keyword itself is taken verbatim.
pub fn contains_lower(hay: &str, needle: &str) -> (r: bool)
    ensures
        r == contains_sub(lower(hay@), needle@),
{
    let n = hay.unicode_len();
    let m = needle.unicode_len();
    proof {
        assert(lower(hay@).len() == n);
    }
    if m > n {
        assert(forall|k: int| !matches_at(lower(hay@), needle@, k));
        return false;
    }
    if m == 0 {
        proof {
            assert(lower(hay@).subrange(0, 0) =~= needle@);
            assert(matches_at(lower(hay@), needle@, 0));
        }
        return true;
    }
    let mut k: usize = 0;
    while k <= n - m
        invariant
            1 <= m <= n,
            lower(hay@).len() == n,
            n == hay@.len(),
            m == needle@.len(),
            k <= n - m + 1,
            forall|k2: int| 0 <= k2 < k ==> !matches_at(lower(hay@), needle@, k2),
        decreases n - m - k + 1,
    {
        let mut l: usize = 0;
        let mut mismatch = false;
        while l < m
            invariant
                1 <= m <= n,
                lower(hay@).len() == n,
                n == hay@.len(),
                m == needle@.len(),
                k + m <= n,
                l <= m,
                !mismatch ==> forall|l2: int|
                    0 <= l2 < l ==> lower(hay@)[k + l2] == needle@[l2],
                mismatch ==> !matches_at(lower(hay@), needle@, k as int),
            decreases m - l,
        {
            let hc = to_lower_char(hay.get_char(k + l));
            let nc = needle.get_char(l);
            if hc != nc {
                proof {
                    assert(lower(hay@)[k + l] != needle@[l as int]);
                    if matches_at(lower(hay@), needle@, k as int) {
                        assert(lower(hay@).subrange(k as int, k + m)[l as int]
                            == lower(hay@)[k + l]);
                    }
                }
                mismatch = true;
            }
            l = l + 1;
        }
        if !mismatch {
            proof {
                assert(lower(hay@).subrange(k as int, k + m) =~= needle@);
                assert(matches_at(lower(hay@), needle@, k as int));
            }
            return true;
        }
        k = k + 1;
    }
    proof {
        assert forall|k2: int| !matches_at(lower(hay@), needle@, k2) by {
            if 0 <= k2 && k2 + needle@.len() <= lower(hay@).len() {
                assert(k2 < k);
            }
        }
    }
    false
}

/// Case-insensitive match of a search query against a file name: does
/// the case-folded query occur in the case-folded name?  This is the
/// decision the host's directory walk applies to every entry it visits.
pub fn search_name_matches(name: &str, query: &str) -> (r: bool)
    ensures
        r == contains_sub(lower(name@), lower(query@)),
{
    let n = name.unicode_len();
    let m = query.unicode_len();
    proof {
        assert(lower(name@).len() == n);
        assert(lower(query@).len() == m);
    }
    if m > n {
        assert(forall|k: int| !matches_at(lower(name@), lower(query@), k));
        return false;
    }
    if m == 0 {
        proof {
            assert(lower(name@).subrange(0, 0) =~= lower(query@));
            assert(matches_at(lower(name@), lower(query@), 0));
        }
        return true;
    }
    let mut k: usize = 0;
    while k <= n - m
        invariant
            1 <= m <= n,
            lower(name@).len() == n,
            lower(query@).len() == m,
            n == name@.len(),
            m == query@.len(),
            k <= n - m + 1,
            forall|k2: int| 0 <= k2 < k ==> !matches_at(lower(name@), lower(query@), k2),
        decreases n - m - k + 1,
    {
        let mut l: usize = 0;
        let mut mismatch = false;
        while l < m
            invariant
                1 <= m <= n,
                lower(name@).len() == n,
                lower(query@).len() == m,
                n == name@.len(),
                m == query@.len(),
                k + m <= n,
                l <= m,
                !mismatch ==> forall|l2: int|
                    0 <= l2 < l ==> lower(name@)[k + l2] == lower(query@)[l2],
                mismatch ==> !matches_at(lower(name@), lower(query@), k as int),
            decreases m - l,
        {
            let hc = to_lower_char(name.get_char(k + l));
            let qc = to_lower_char(query.get_char(l));
            if hc != qc {
                proof {
                    assert(lower(name@)[k + l] != lower(query@)[l as int]);
                    if matches_at(lower(name@), lower(query@), k as int) {
                        assert(lower(name@).subrange(k as int, k + m)[l as int]
                            == lower(name@)[k + l]);
                    }
                }
                mismatch = true;
            }
            l = l + 1;
        }
        if !mismatch {
            proof {
                assert(lower(name@).subrange(k as int, k + m) =~= lower(query@));
                assert(matches_at(lower(name@), lower(query@), k as int));
            }
            return true;
        }
        k = k + 1;
    }
    proof {
        assert forall|k2: int| !matches_at(lower(name@), lower(query@), k2) by {
            if 0 <= k2 && k2 + lower(query@).len() <= lower(name@).len() {
                assert(k2 < k);
            }
        }
    }
    false
}

/// Length of the maximal leading run of non-whitespace characters.
pub open spec fn word_len(s: Seq<char>) -> int
    decreases s.len(),
{
    if s.len() == 0 || is_space(s[0]) {
        0
    } else {
        1 + word_len(s.drop_first())
    }
}

/// The whitespace-separated tokens of `s`, in order, each one a maximal
/// run of non-whitespace characters.
pub open spec fn tokens(s: Seq<char>) -> Seq<Seq<char>>
    decreases s.len() via tokens_decreases
{
    if s.len() == 0 {
        seq![]
    } else if is_space(s[0]) {
        tokens(s.drop_first())
    } else {
        seq![s.take(word_len(s))] + tokens(s.skip(word_len(s)))
    }
}

#[via_fn]
proof fn tokens_decreases(s: Seq<char>) {
    if s.len() != 0 && !is_space(s[0]) {
        lemma_word_len_bound(s.drop_first());
        assert(word_len(s) == 1 + word_len(s.drop_first()));
    }
}

proof fn lemma_word_len_bound(s: Seq<char>)
    ensures
        0 <= word_len(s) <= s.len(),
    decreases s.len(),
{
    if s.len() != 0 && !is_space(s[0]) {
        lemma_word_len_bound(s.drop_first());
    }
}

/// `word_len` is characterized pointwise: if the first `m` characters are
/// non-whitespace and position `m` is the end or whitespace, the word is
/// exactly `m` long.
proof fn lemma_word_len_exact(s: Seq<char>, m: int)
    requires
        0 <= m <= s.len(),
        forall|l: int| 0 <= l < m ==> !is_space(s[l]),
        m == s.len() || is_space(s[m]),
    ensures
        word_len(s) == m,
    decreases m,
{
    if m == 0 {
    } else {
        assert(!is_space(s[0]));
        lemma_word_len_exact(s.drop_first(), m - 1);
    }
}

/// The sequence views of a vector of strings.
pub open spec fn views_of(v: Seq<String>) -> Seq<Seq<char>> {
    v.map_values(|s: String| s@)
}

/// Split `s` into its whitespace-separated tokens.
pub fn tokenize(s: &str) -> (toks: Vec<String>)
    ensures
        views_of(toks@) == tokens(s@),
{
    let n = s.unicode_len();
    let mut toks: Vec<String> = Vec::new();
    let mut i: usize = 0;
    proof {
        assert(views_of(toks@) =~= Seq::<Seq<char>>::empty());
        assert(s@.skip(0) =~= s@);
    }
    while i < n
        invariant
            n == s@.len(),
            i <= n,
            tokens(s@) == views_of(toks@) + tokens(s@.skip(i as int)),
        decreases n - i,
    {
        let c = s.get_char(i);
        if is_space_char(c) {
            proof {
                assert(s@.skip(i as int)[0] == s@[i as int]);
                assert(s@.skip(i as int).drop_first() =~= s@.skip(i + 1));
            }
            i = i + 1;
        } else {
            let start = i;
            let mut j: usize = i + 1;
            while j < n
                invariant
                    n == s@.len(),
                    start < j <= n,
                    forall|l: int| start <= l < j ==> !is_space(s@[l]),
                ensures
                    start < j <= n,
                    forall|l: int| start <= l < j ==> !is_space(s@[l]),
                    j == n || is_space(s@[j as int]),
                decreases n - j,
            {
                if is_space_char(s.get_char(j)) {
                    break;
                }
                j = j + 1;
            }
            let word = String::from_str(s.substring_char(start, j));
            proof {
                let rest = s@.skip(start as int);
                assert forall|l: int| 0 <= l < j - start implies !is_space(rest[l]) by {
                    assert(rest[l] == s@[start + l]);
                }
                if j < n {
                    assert(rest[j - start] == s@[j as int]);
                }
                lemma_word_len_exact(rest, j - start);
                assert(rest.take(j - start) =~= s@.subrange(start as int, j as int));
                assert(rest.skip(j - start) =~= s@.skip(j as int));
                assert(!is_space(rest[0]));
                assert(tokens(rest) == seq![s@.subrange(start as int, j as int)]
                    + tokens(s@.skip(j as int)));
                assert(views_of(toks@.push(word)) =~= views_of(toks@).push(word@));
                assert(views_of(toks@).push(word@) + tokens(s@.skip(j as int))
                    =~= views_of(toks@) + (seq![word@] + tokens(s@.skip(j as int))));
            }
            toks.push(word);
            i = j;
        }
    }
    proof {
        assert(s@.skip(n as int) =~= Seq::<char>::empty());
        assert(tokens(s@) =~= views_of(toks@));
    }
    toks
}

/// The parts joined into one sequence with `sep` between neighbours.
pub open spec fn join_sep(parts: Seq<Seq<char>>, sep: Seq<char>) -> Seq<char>
    decreases parts.len(),
{
    if parts.len() == 0 {
        seq![]
    } else if parts.len() == 1 {
        parts[0]
    } else {
        join_sep(parts.drop_last(), sep) + sep + parts.last()
    }
}

/// Join the strings of `items` with the separator `sep` between
/// neighbours.
pub fn join_with(items: &Vec<String>, sep: &str) -> (r: String)
    ensures
        r@ == join_sep(views_of(items@), sep@),
{
    let ghost parts = views_of(items@);
    let mut r = String::new();
    proof {
        assert(r@ =~= join_sep(parts.take(0), sep@));
    }
    let mut i: usize = 0;
    while i < items.len()
        invariant
            parts == views_of(items@),
            parts.len() == items@.len(),
            i <= items@.len(),
            r@ == join_sep(parts.take(i as int), sep@),
        decreases items@.len() - i,
    {
        if i > 0 {
            r.append(sep);
        }
        r.append(items[i].as_str());
        proof {
            assert(parts[i as int] == items@[i as int]@);
            assert(parts.take(i + 1).drop_last() =~= parts.take(i as int));
            assert(parts.take(i + 1).last() == parts[i as int]);
        }
        i = i + 1;
    }
    proof {
        assert(parts.take(items@.len() as int) =~= parts);
    }
    r
}

} // verus!
