//! The order in which a provider lists its shown items: best match first,
//! and by id among equal matches.

use vstd::prelude::*;
use std::cmp::Ordering;
use crate::text::{
    char_vec, chars_less, chars_same, lemma_text_less_asymmetric, lemma_text_less_irreflexive,
    lemma_text_less_total, lemma_text_less_transitive, text_less,
};

verus! {

/// Whether an item with score `s1` and id `id1` comes before one with
/// score `s2` and id `id2`: a higher score first, and among equal scores
/// the id that comes first in code point order.
pub open spec fn listed_before(s1: i32, id1: Seq<char>, s2: i32, id2: Seq<char>) -> bool {
    s1 > s2 || (s1 == s2 && text_less(id1, id2))
}

/// Compares two items of a provider for sorting.
pub fn compare_items(first_score: i32, first_id: &str, second_score: i32, second_id: &str) -> (r: Ordering)
    ensures
        r == if listed_before(first_score, first_id@, second_score, second_id@) {
            Ordering::Less
        } else if first_score == second_score && first_id@ == second_id@ {
            Ordering::Equal
        } else {
            Ordering::Greater
        },
{
    if second_score < first_score {
        Ordering::Less
    } else if first_score < second_score {
        Ordering::Greater
    } else {
        let a = char_vec(first_id);
        let b = char_vec(second_id);
        if chars_less(&a, &b) {
            Ordering::Less
        } else if chars_same(&a, &b) {
            Ordering::Equal
        } else {
            Ordering::Greater
        }
    }
}


/// The listing order is a strict total order: no item comes before itself,
/// of two items at most one comes before the other, the order is
/// transitive, and of two different items one comes before the other.
pub proof fn law_listing_order_is_strict_and_total(
    s1: i32,
    id1: Seq<char>,
    s2: i32,
    id2: Seq<char>,
    s3: i32,
    id3: Seq<char>,
)
    ensures
        !listed_before(s1, id1, s1, id1),
        listed_before(s1, id1, s2, id2) ==> !listed_before(s2, id2, s1, id1),
        listed_before(s1, id1, s2, id2) && listed_before(s2, id2, s3, id3) ==> listed_before(s1, id1, s3, id3),
        (s1 != s2 || id1 != id2) ==> listed_before(s1, id1, s2, id2) || listed_before(s2, id2, s1, id1),
{
    lemma_text_less_irreflexive(id1);
    lemma_text_less_asymmetric(id1, id2);
    if text_less(id1, id2) && text_less(id2, id3) {
        lemma_text_less_transitive(id1, id2, id3);
    }
    if id1 != id2 {
        lemma_text_less_total(id1, id2);
    }
}


/// A higher score is listed first; of two equal scores, the id that comes
/// first by code points, a shorter beginning before a longer text, is
/// listed first.
pub proof fn law_higher_scores_and_smaller_ids_first(
    s1: i32,
    s2: i32,
    p: Seq<char>,
    x: char,
    y: char,
    a: Seq<char>,
    b: Seq<char>,
)
    ensures
        s1 > s2 ==> listed_before(s1, a, s2, b),
        listed_before(s1, a, s2, b) ==> s1 >= s2,
        (x as u32) < (y as u32) ==> listed_before(s1, p + seq![x] + a, s1, p + seq![y] + b),
        listed_before(s1, p, s1, p + seq![x] + a),
    decreases p.len(),
{
    if p.len() > 0 {
        law_higher_scores_and_smaller_ids_first(s1, s2, p.drop_first(), x, y, a, b);
        assert((p + seq![x] + a).drop_first() =~= p.drop_first() + seq![x] + a);
        assert((p + seq![y] + b).drop_first() =~= p.drop_first() + seq![y] + b);
        assert((p + seq![x] + a)[0] == p[0]);
        assert((p + seq![y] + b)[0] == p[0]);
    } else {
        assert(p + seq![x] + a =~= seq![x] + a);
        assert(p + seq![y] + b =~= seq![y] + b);
    }
}

} // verus!
