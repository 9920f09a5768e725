//! The intent classifier: maps an utterance to exactly one intent by
//! testing keyword families in a fixed priority order, first match wins.
//! Matching is case-insensitive and works on substrings, not word
//! boundaries, so a word merely containing a keyword (such as "hi" inside
//! "history") triggers the family; that looseness is a deliberate part of
//! the rule set.

use vstd::prelude::*;

use crate::text::contains_lower;
use crate::text::contains_sub;
use crate::text::lower;

verus! {

/// The classified category of action an utterance requests.
#[derive(Clone, Copy, Debug, PartialEq, Eq, Structural)]
pub enum Intent {
    Create,
    Delete,
    Search,
    Read,
    Help,
    Greet,
    Farewell,
    Unknown,
}

/// The keyword families, in priority order, over the case-folded
/// utterance: create-and-file first, then delete, search, read, help,
/// greeting, farewell; anything else is unknown.
pub open spec fn spec_classify(u: Seq<char>) -> Intent {
    let l = lower(u);
    if contains_sub(l, "create"@) && contains_sub(l, "file"@) {
        Intent::Create
    } else if contains_sub(l, "delete"@) || contains_sub(l, "remove"@) {
        Intent::Delete
    } else if contains_sub(l, "find"@) || contains_sub(l, "search"@) {
        Intent::Search
    } else if contains_sub(l, "read"@) || contains_sub(l, "open"@) {
        Intent::Read
    } else if contains_sub(l, "help"@) {
        Intent::Help
    } else if contains_sub(l, "hello"@) || contains_sub(l, "hi"@) {
        Intent::Greet
    } else if contains_sub(l, "bye"@) || contains_sub(l, "goodbye"@) {
        Intent::Farewell
    } else {
        Intent::Unknown
    }
}

/// Classify one utterance.  Total and deterministic: every utterance gets
/// exactly the intent `spec_classify` assigns to it.
pub fn classify(utterance: &str) -> (intent: Intent)
    ensures
        intent == spec_classify(utterance@),
{
    if contains_lower(utterance, "create") && contains_lower(utterance, "file") {
        Intent::Create
    } else if contains_lower(utterance, "delete") || contains_lower(utterance, "remove") {
        Intent::Delete
    } else if contains_lower(utterance, "find") || contains_lower(utterance, "search") {
        Intent::Search
    } else if contains_lower(utterance, "read") || contains_lower(utterance, "open") {
        Intent::Read
    } else if contains_lower(utterance, "help") {
        Intent::Help
    } else if contains_lower(utterance, "hello") || contains_lower(utterance, "hi") {
        Intent::Greet
    } else if contains_lower(utterance, "bye") || contains_lower(utterance, "goodbye") {
        Intent::Farewell
    } else {
        Intent::Unknown
    }
}

/// The classifier is a pure function of the utterance: classifying the
/// same utterance again, whatever else has happened in between, yields
/// the same intent.
pub proof fn lemma_classify_deterministic(u1: Seq<char>, u2: Seq<char>)
    requires
        u1 == u2,
    ensures
        spec_classify(u1) == spec_classify(u2),
{
}

/// Classification only looks at the case-folded utterance: two utterances
/// that agree up to ASCII case get the same intent.
pub proof fn lemma_classify_case_insensitive(u1: Seq<char>, u2: Seq<char>)
    requires
        lower(u1) == lower(u2),
    ensures
        spec_classify(u1) == spec_classify(u2),
{
}

/// Priority of the search family over the help family: an utterance that
/// matches both "find" and "help" is classified as a search, provided no
/// family of higher priority than search (create-with-file, delete,
/// remove) matches as well.
pub proof fn lemma_search_beats_help(u: Seq<char>)
    requires
        contains_sub(lower(u), "find"@),
        contains_sub(lower(u), "help"@),
        !(contains_sub(lower(u), "create"@) && contains_sub(lower(u), "file"@)),
        !contains_sub(lower(u), "delete"@),
        !contains_sub(lower(u), "remove"@),
    ensures
        spec_classify(u) == Intent::Search,
{
}

} // verus!
