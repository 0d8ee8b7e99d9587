//! Fuzzy matching of a provider's items against the query, as `nucleo`
//! scores it: which items are shown, and in what order.

use vstd::prelude::*;
use vstd::utf8::encode_utf8;
use nucleo::{Matcher, Utf32Str};

verus! {

broadcast use vstd::string::group_string_axioms;

/// The score that `nucleo` gives the best fuzzy match of `needle` in
/// `haystack`, both read as ASCII bytes, with its default configuration;
/// none when `needle` does not match.
pub uninterp spec fn nucleo_score(haystack: Seq<u8>, needle: Seq<u8>) -> Option<u16>;

/// `Matcher::fuzzy_match` of a matcher with the default configuration
/// (`Matcher::default()`), with both texts given as `Utf32Str::Ascii`. The
/// contract names the result, and states what the source shows of it: a
/// needle longer than the haystack does not match, and an empty needle
/// matches with score 0. It asserts that the haystack has at most
/// `u32::MAX` characters.
#[verifier::external_body]
fn default_fuzzy_match(haystack: &[u8], needle: &[u8]) -> (r: Option<u16>)
    requires
        haystack@.len() <= u32::MAX,
    ensures
        r == nucleo_score(haystack@, needle@),
        needle@.len() > haystack@.len() ==> r is None,
        needle@.len() == 0 ==> r == Some(0u16),
{
    Matcher::default().fuzzy_match(Utf32Str::Ascii(haystack), Utf32Str::Ascii(needle))
}

/// The fuzzy score of a match: its score, or -1 when there is no match.
pub open spec fn match_score(m: Option<u16>) -> i32 {
    match m {
        Some(s) => s as i32,
        None => -1i32,
    }
}

/// The fuzzy score of an item with id `id` for the query `query`.
pub open spec fn fuzzy_score(id: Seq<char>, query: Seq<char>) -> i32 {
    match_score(nucleo_score(encode_utf8(id), encode_utf8(query)))
}

/// The fuzzy score of a match that `nucleo` reported.
pub fn score_of_match(m: Option<u16>) -> (r: i32)
    ensures
        r == match_score(m),
{
    match m {
        Some(score) => score as i32,
        None => -1,
    }
}

/// Whether an item with the given fuzzy score is shown.
pub open spec fn is_shown(score: i32) -> bool {
    score != -1i32
}

/// Scores one item against the query.
pub fn item_fuzzy_score(id: &str, query: &str) -> (r: i32)
    requires
        encode_utf8(id@).len() <= u32::MAX,
    ensures
        r == fuzzy_score(id@, query@),
        query@.len() == 0 ==> r == 0,
        encode_utf8(query@).len() > encode_utf8(id@).len() ==> r == -1,
{
    assert(query@.len() == 0 ==> encode_utf8(query@) =~= Seq::<u8>::empty());
    score_of_match(default_fuzzy_match(id.as_bytes(), query.as_bytes()))
}

/// Scores every item, given by its id, against the query. With an empty
/// query every item scores 0, and so every item is shown.
pub fn update_fuzzy_scores(ids: &Vec<String>, query: &str) -> (r: Vec<i32>)
    requires
        forall|i: int| 0 <= i < ids@.len() ==> encode_utf8(#[trigger] ids@[i]@).len() <= u32::MAX,
    ensures
        r@.len() == ids@.len(),
        forall|i: int| 0 <= i < ids@.len() ==> #[trigger] r@[i] == fuzzy_score(ids@[i]@, query@),
        query@.len() == 0 ==> forall|i: int| 0 <= i < ids@.len() ==> #[trigger] r@[i] == 0 && is_shown(r@[i]),
{
    let mut scores: Vec<i32> = Vec::new();
    let mut i: usize = 0;
    while i < ids.len()
        invariant
            i <= ids@.len(),
            scores@.len() == i,
            forall|k: int| 0 <= k < ids@.len() ==> encode_utf8(#[trigger] ids@[k]@).len() <= u32::MAX,
            forall|k: int| 0 <= k < i ==> #[trigger] scores@[k] == fuzzy_score(ids@[k]@, query@),
            query@.len() == 0 ==> forall|k: int| 0 <= k < i ==> #[trigger] scores@[k] == 0,
        decreases ids@.len() - i,
    {
        let s = item_fuzzy_score(ids[i].as_str(), query);
        scores.push(s);
        i += 1;
    }
    scores
}

/// Whether an item with the given fuzzy score passes the filter.
pub fn passes_filter(score: i32) -> (r: bool)
    ensures
        r == is_shown(score),
{
    score != -1
}


/// An item is shown exactly when its id matches the query; a match scores
/// its score, which is never negative.
pub proof fn law_shown_exactly_when_matched(m: Option<u16>)
    ensures
        is_shown(match_score(m)) <==> m is Some,
        m matches Some(v) ==> match_score(m) == v && match_score(m) >= 0,
{
}

} // verus!
