//! The items that a provider lists for a query: those that match it, each
//! once, in the listing order.

use vstd::prelude::*;
use crate::launcher::fuzzy::{fuzzy_score, is_shown, update_fuzzy_scores};
use crate::launcher::order::{law_listing_order_is_strict_and_total, listed_before};
use crate::text::{char_vec, chars_less, views};
use vstd::utf8::encode_utf8;

verus! {

/// Whether the item `x` comes before the item `y`, by their scores and ids.
pub open spec fn item_before(scores: Seq<i32>, ids: Seq<Seq<char>>, x: int, y: int) -> bool {
    listed_before(scores[x], ids[x], scores[y], ids[y])
}

/// Whether `order` lists exactly the shown items among `scores`, each once,
/// no item after one that it comes before.
pub open spec fn is_listing(order: Seq<usize>, scores: Seq<i32>, ids: Seq<Seq<char>>) -> bool {
    &&& order.no_duplicates()
    &&& forall|k: int| 0 <= k < order.len() ==> #[trigger] order[k] < scores.len()
    &&& forall|i: int| 0 <= i < scores.len() ==> (order.contains(i as usize) <==> is_shown(#[trigger] scores[i]))
    &&& forall|a: int, b: int|
        0 <= a < b < order.len() ==> !item_before(scores, ids, #[trigger] order[b] as int, #[trigger] order[a] as int)
}

/// Whether the item `x` comes before the item `y`.
fn comes_before(scores: &Vec<i32>, ids: &Vec<String>, x: usize, y: usize) -> (r: bool)
    requires
        x < scores@.len(),
        y < scores@.len(),
        scores@.len() == ids@.len(),
    ensures
        r == item_before(scores@, views(ids@), x as int, y as int),
{
    if scores[x] > scores[y] {
        true
    } else if scores[x] == scores[y] {
        let a = char_vec(ids[x].as_str());
        let b = char_vec(ids[y].as_str());
        chars_less(&a, &b)
    } else {
        false
    }
}

/// The items shown for the scores `scores` of the items with ids `ids`, in
/// the listing order: higher scores first, equal scores by id.
pub fn listing(scores: &Vec<i32>, ids: &Vec<String>) -> (r: Vec<usize>)
    requires
        scores@.len() == ids@.len(),
    ensures
        is_listing(r@, scores@, views(ids@)),
{
    let ghost ids_v = views(ids@);
    let n = scores.len();
    let mut r: Vec<usize> = Vec::new();
    let mut i: usize = 0;
    while i < n
        invariant
            n == scores@.len(),
            scores@.len() == ids@.len(),
            ids_v == views(ids@),
            i <= n,
            r@.no_duplicates(),
            forall|k: int| 0 <= k < r@.len() ==> #[trigger] r@[k] < i,
            forall|j: int| 0 <= j < i ==> (r@.contains(j as usize) <==> is_shown(#[trigger] scores@[j])),
            forall|a: int, b: int|
                0 <= a < b < r@.len() ==> !item_before(scores@, ids_v, #[trigger] r@[b] as int, #[trigger] r@[a] as int),
        decreases n - i,
    {
        if scores[i] != -1 {
            let mut p: usize = 0;
            while p < r.len() && !comes_before(scores, ids, i, r[p])
                invariant
                    n == scores@.len(),
                    scores@.len() == ids@.len(),
                    ids_v == views(ids@),
                    i < n,
                    p <= r@.len(),
                    forall|k: int| 0 <= k < r@.len() ==> #[trigger] r@[k] < i,
                    forall|a: int| 0 <= a < p ==> !item_before(scores@, ids_v, i as int, #[trigger] r@[a] as int),
                decreases r@.len() - p,
            {
                p += 1;
            }
            let ghost old_r = r@;
            proof {
                old_r.insert_ensures(p as int, i);
            }
            r.insert(p, i);
            proof {
                let nr = r@;
                assert(nr == old_r.insert(p as int, i));
                assert forall|k: int| 0 <= k < nr.len() implies #[trigger] nr[k] < i + 1 by {
                    if k < p {
                        assert(nr[k] == old_r[k]);
                    } else if k > p {
                        assert(nr[k] == old_r[k - 1]);
                    }
                }
                assert forall|x: int, y: int| 0 <= x < y < nr.len() implies nr[x] != nr[y] by {
                    if x < p && y < p {
                        assert(nr[x] == old_r[x] && nr[y] == old_r[y]);
                    } else if x < p && y == p {
                        assert(nr[x] == old_r[x]);
                    } else if x < p {
                        assert(nr[x] == old_r[x] && nr[y] == old_r[y - 1]);
                    } else if x == p {
                        assert(nr[y] == old_r[y - 1]);
                    } else {
                        assert(nr[x] == old_r[x - 1] && nr[y] == old_r[y - 1]);
                    }
                }
                assert forall|j: int| 0 <= j < i + 1 implies (nr.contains(j as usize) <==> is_shown(
                    #[trigger] scores@[j],
                )) by {
                    if j < i {
                        if old_r.contains(j as usize) {
                            let k = choose|k: int| 0 <= k < old_r.len() && old_r[k] == j as usize;
                            if k < p {
                                assert(nr[k] == old_r[k]);
                            } else {
                                assert(nr[k + 1] == old_r[k]);
                            }
                        }
                        if nr.contains(j as usize) {
                            let k = choose|k: int| 0 <= k < nr.len() && nr[k] == j as usize;
                            if k < p {
                                assert(old_r[k] == nr[k]);
                            } else if k > p {
                                assert(old_r[k - 1] == nr[k]);
                            }
                        }
                    } else {
                        assert(nr[p as int] == i);
                    }
                }
                assert forall|a: int, b: int| 0 <= a < b < nr.len() implies !item_before(
                    scores@,
                    ids_v,
                    #[trigger] nr[b] as int,
                    #[trigger] nr[a] as int,
                ) by {
                    let x = nr[a] as int;
                    let y = nr[b] as int;
                    if b < p {
                        assert(nr[a] == old_r[a] && nr[b] == old_r[b]);
                    } else if b == p {
                        assert(nr[a] == old_r[a]);
                    } else if a < p {
                        assert(nr[a] == old_r[a] && nr[b] == old_r[b - 1]);
                        // a before p, b after: both old, with old indices a < b - 1
                    } else if a == p {
                        // the new item before an old one at or after p
                        let z = old_r[p as int] as int;
                        assert(nr[b] == old_r[b - 1]);
                        assert(item_before(scores@, ids_v, i as int, z));
                        law_listing_order_is_strict_and_total(
                            scores@[y],
                            ids_v[y],
                            scores@[i as int],
                            ids_v[i as int],
                            scores@[z],
                            ids_v[z],
                        );
                        law_listing_order_is_strict_and_total(
                            scores@[i as int],
                            ids_v[i as int],
                            scores@[z],
                            ids_v[z],
                            scores@[y],
                            ids_v[y],
                        );
                        if b - 1 > p {
                            assert(!item_before(scores@, ids_v, old_r[b - 1] as int, old_r[p as int] as int));
                        }
                    } else {
                        assert(nr[a] == old_r[a - 1] && nr[b] == old_r[b - 1]);
                    }
                }
            }
        }
        proof {
            if scores@[i as int] == -1 {
                assert(!r@.contains(i)) by {
                    if r@.contains(i) {
                        let k = choose|k: int| 0 <= k < r@.len() && r@[k] == i;
                    }
                }
            }
        }
        i += 1;
    }
    r
}

/// The items listed for the query `query`, out of the items with ids
/// `ids`: those that match it, each once, in the listing order of their
/// fuzzy scores.
pub fn list_for_query(ids: &Vec<String>, query: &str) -> (r: Vec<usize>)
    requires
        forall|i: int| 0 <= i < ids@.len() ==> encode_utf8(#[trigger] ids@[i]@).len() <= u32::MAX,
    ensures
        is_listing(r@, Seq::new(ids@.len(), |i: int| fuzzy_score(ids@[i]@, query@)), views(ids@)),
{
    let scores = update_fuzzy_scores(ids, query);
    assert(scores@ =~= Seq::new(ids@.len(), |i: int| fuzzy_score(ids@[i]@, query@)));
    listing(&scores, ids)
}

} // verus!
