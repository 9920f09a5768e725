//! The parameter extractor: pulls a filename token or a search-query
//! string out of the raw utterance.  Both functions are pure and work on
//! the original, non-folded text, so the case of extracted filenames and
//! queries is preserved even though intent classification is
//! case-insensitive.

use vstd::prelude::*;

use crate::intent::Intent;
use crate::intent::spec_classify;
use crate::text::contains_sub;
use crate::text::join_sep;
use crate::text::lower;
use crate::text::to_lower_char;
use crate::text::tokenize;
use crate::text::tokens;
use crate::text::views_of;

verus! {

/// The token contains a `.`, the marker that makes it look like a
/// filename.
pub open spec fn has_dot(t: Seq<char>) -> bool {
    exists|k: int| 0 <= k < t.len() && t[k] == '.'
}

/// The first token at index `i` or later that contains a `.`, if any.
pub open spec fn first_dot_from(ts: Seq<Seq<char>>, i: int) -> Option<Seq<char>>
    decreases ts.len() - i,
{
    if i < 0 || i >= ts.len() {
        None
    } else if has_dot(ts[i]) {
        Some(ts[i])
    } else {
        first_dot_from(ts, i + 1)
    }
}

/// The filename an utterance carries: its first token after the leading
/// command word that contains a `.`, taken verbatim.
pub open spec fn spec_extract_filename(u: Seq<char>) -> Option<Seq<char>> {
    first_dot_from(tokens(u), 1)
}

/// What `first_dot_from` finds: either the first dot-carrying token from
/// `i` on, or a guarantee that there is none.
pub proof fn lemma_first_dot_characterize(ts: Seq<Seq<char>>, i: int)
    requires
        0 <= i,
    ensures
        match first_dot_from(ts, i) {
            Some(t) => exists|j: int|
                i <= j < ts.len() && ts[j] == t && has_dot(t) && (forall|l: int|
                    i <= l < j ==> !has_dot(ts[l])),
            None => forall|j: int| i <= j < ts.len() ==> !has_dot(ts[j]),
        },
    decreases ts.len() - i,
{
    if i < ts.len() && !has_dot(ts[i]) {
        lemma_first_dot_characterize(ts, i + 1);
        match first_dot_from(ts, i) {
            Some(t) => {
                let j = choose|j: int|
                    i + 1 <= j < ts.len() && ts[j] == t && has_dot(t) && (forall|l: int|
                        i + 1 <= l < j ==> !has_dot(ts[l]));
                assert(i <= j < ts.len() && ts[j] == t && has_dot(t) && (forall|l: int|
                    i <= l < j ==> !has_dot(ts[l])));
            },
            None => {},
        }
    }
}

/// Does the token contain a `.`?
fn token_has_dot(t: &str) -> (r: bool)
    ensures
        r == has_dot(t@),
{
    let n = t.unicode_len();
    let mut k: usize = 0;
    while k < n
        invariant
            n == t@.len(),
            k <= n,
            forall|k2: int| 0 <= k2 < k ==> t@[k2] != '.',
        decreases n - k,
    {
        if t.get_char(k) == '.' {
            return true;
        }
        k = k + 1;
    }
    false
}

/// Extract the filename from an utterance: the first whitespace token at
/// index greater than zero that contains a `.`; nothing if there is no
/// such token.
pub fn extract_filename(input: &str) -> (r: Option<String>)
    ensures
        (match r {
            Some(name) => spec_extract_filename(input@) == Some(name@),
            None => spec_extract_filename(input@) is None,
        }),
{
    let toks = tokenize(input);
    let ghost ts = tokens(input@);
    let mut i: usize = 1;
    while i < toks.len()
        invariant
            ts == tokens(input@),
            views_of(toks@) == ts,
            toks@.len() == ts.len(),
            1 <= i,
            first_dot_from(ts, 1) == first_dot_from(ts, i as int),
        decreases toks@.len() - i,
    {
        proof {
            assert(ts[i as int] == toks@[i as int]@);
        }
        if token_has_dot(toks[i].as_str()) {
            proof {
                assert(first_dot_from(ts, i as int) == Some(ts[i as int]));
            }
            let name = toks[i].clone();
            proof {
                assert(name@ == ts[i as int]);
                assert(spec_extract_filename(input@) == Some(name@));
            }
            return Some(name);
        }
        i = i + 1;
    }
    None
}

/// The token is, ignoring ASCII case, the stop-word "files".
pub open spec fn is_files_token(t: Seq<char>) -> bool {
    lower(t) == "files"@
}

/// Case-insensitive comparison of a token against a lowercase word.
fn eq_lower(t: &str, w: &str) -> (r: bool)
    ensures
        r == (lower(t@) == w@),
{
    let n = t.unicode_len();
    let m = w.unicode_len();
    proof {
        assert(lower(t@).len() == n);
    }
    if n != m {
        return false;
    }
    let mut k: usize = 0;
    while k < n
        invariant
            n == t@.len(),
            n == w@.len(),
            lower(t@).len() == n,
            k <= n,
            forall|k2: int| 0 <= k2 < k ==> lower(t@)[k2] == w@[k2],
        decreases n - k,
    {
        if to_lower_char(t.get_char(k)) != w.get_char(k) {
            proof {
                assert(lower(t@)[k as int] != w@[k as int]);
            }
            return false;
        }
        k = k + 1;
    }
    proof {
        assert(lower(t@) =~= w@);
    }
    true
}

/// The tokens that make up the search query: every token after the
/// leading command word except those equal, ignoring case, to "files".
pub open spec fn query_tokens(ts: Seq<Seq<char>>) -> Seq<Seq<char>>
    decreases ts.len(),
{
    if ts.len() <= 1 {
        seq![]
    } else {
        let rest = query_tokens(ts.drop_last());
        if is_files_token(ts.last()) {
            rest
        } else {
            rest.push(ts.last())
        }
    }
}

/// The search query an utterance carries: its query tokens joined by
/// single spaces.  Always defined; empty when nothing remains.
pub open spec fn spec_extract_search_query(u: Seq<char>) -> Seq<char> {
    join_sep(query_tokens(tokens(u)), " "@)
}

/// Extract the search query from an utterance: all tokens after the
/// command verb, minus any "files" stop-word, joined by single spaces,
/// with the original case preserved.
pub fn extract_search_query(input: &str) -> (q: String)
    ensures
        q@ == spec_extract_search_query(input@),
{
    let toks = tokenize(input);
    let ghost ts = tokens(input@);
    let mut q = String::new();
    let mut any = false;
    if toks.len() == 0 {
        return q;
    }
    let mut i: usize = 1;
    while i < toks.len()
        invariant
            views_of(toks@) == ts,
            toks@.len() == ts.len(),
            1 <= i <= ts.len(),
            q@ == join_sep(query_tokens(ts.take(i as int)), " "@),
            any == (query_tokens(ts.take(i as int)).len() > 0),
        decreases toks@.len() - i,
    {
        proof {
            assert(ts[i as int] == toks@[i as int]@);
            assert(ts.take(i + 1).drop_last() =~= ts.take(i as int));
            assert(ts.take(i + 1).last() == ts[i as int]);
        }
        if !eq_lower(toks[i].as_str(), "files") {
            if any {
                q.append(" ");
            }
            q.append(toks[i].as_str());
            proof {
                let kept = query_tokens(ts.take(i as int));
                assert(query_tokens(ts.take(i + 1)) == kept.push(ts[i as int]));
                assert(kept.push(ts[i as int]).drop_last() =~= kept);
            }
            any = true;
        }
        i = i + 1;
    }
    proof {
        assert(ts.take(ts.len() as int) =~= ts);
    }
    q
}

/// An utterance that asks to create a file and carries a dot-marked
/// token is classified as a file creation, and the extracted filename is
/// the first such token after the command word, verbatim.
pub proof fn lemma_create_with_filename(u: Seq<char>)
    requires
        contains_sub(lower(u), "create"@),
        contains_sub(lower(u), "file"@),
        exists|i: int| 1 <= i < tokens(u).len() && has_dot(tokens(u)[i]),
    ensures
        spec_classify(u) == Intent::Create,
        spec_extract_filename(u) matches Some(t) && has_dot(t) && exists|i: int|
            1 <= i < tokens(u).len() && tokens(u)[i] == t && (forall|l: int|
                1 <= l < i ==> !has_dot(tokens(u)[l])),
{
    lemma_first_dot_characterize(tokens(u), 1);
}

/// An utterance none of whose tokens contains a `.` yields no filename,
/// whatever its intent.
pub proof fn lemma_no_dot_no_filename(u: Seq<char>)
    requires
        forall|i: int| 0 <= i < tokens(u).len() ==> !has_dot(tokens(u)[i]),
    ensures
        spec_extract_filename(u) is None,
{
    lemma_first_dot_characterize(tokens(u), 1);
}

} // verus!
