//! Sorted sets of character sequences (the ordered, duplicate-free
//! collections the user-sync index builds from recipient ids).
use vstd::prelude::*;
use crate::text::{seq_lt, compare_chars, Order, lemma_seq_lt_transitive, lemma_seq_lt_irreflexive};

verus! {

/// The character views of a vector of character vectors.
pub open spec fn views(keys: Seq<Vec<char>>) -> Seq<Seq<char>> {
    keys.map_values(|v: Vec<char>| v@)
}

/// Strictly increasing in `seq_lt` order (hence free of duplicates).
pub open spec fn strictly_sorted(s: Seq<Seq<char>>) -> bool {
    forall|i: int, j: int| 0 <= i < j < s.len() ==> seq_lt(#[trigger] s[i], #[trigger] s[j])
}

/// Finds where `k` belongs in the sorted `keys`: `Ok(i)` when `keys[i] == k`,
/// `Err(i)` when every key before `i` is smaller and every key from `i` on is larger.
pub fn search_sorted(keys: &Vec<Vec<char>>, k: &Vec<char>) -> (r: Result<usize, usize>)
    requires
        strictly_sorted(views(keys@)),
    ensures
        match r {
            Ok(i) => i < keys@.len() && keys@[i as int]@ == k@,
            Err(i) => i <= keys@.len() && (forall|j: int| 0 <= j < i ==> seq_lt(#[trigger] keys@[j]@, k@))
                && (forall|j: int| i <= j < keys@.len() ==> seq_lt(k@, #[trigger] keys@[j]@)),
        },
{
    let mut lo: usize = 0;
    let mut hi: usize = keys.len();
    while lo < hi
        invariant
            lo <= hi <= keys@.len(),
            strictly_sorted(views(keys@)),
            forall|j: int| 0 <= j < lo ==> seq_lt(#[trigger] keys@[j]@, k@),
            forall|j: int| hi <= j < keys@.len() ==> seq_lt(k@, #[trigger] keys@[j]@),
        decreases hi - lo,
    {
        let mid = lo + (hi - lo) / 2;
        match compare_chars(&keys[mid], k) {
            Order::Equal => {
                return Ok(mid);
            },
            Order::Less => {
                proof {
                    assert forall|j: int| 0 <= j < mid + 1 implies seq_lt(#[trigger] keys@[j]@, k@) by {
                        if j < mid {
                            assert(views(keys@)[j] == keys@[j]@);
                            assert(views(keys@)[mid as int] == keys@[mid as int]@);
                            lemma_seq_lt_transitive(keys@[j]@, keys@[mid as int]@, k@);
                        }
                    }
                }
                lo = mid + 1;
            },
            Order::Greater => {
                proof {
                    assert forall|j: int| mid <= j < keys@.len() implies seq_lt(k@, #[trigger] keys@[j]@) by {
                        if j > mid {
                            assert(views(keys@)[j] == keys@[j]@);
                            assert(views(keys@)[mid as int] == keys@[mid as int]@);
                            lemma_seq_lt_transitive(k@, keys@[mid as int]@, keys@[j]@);
                        }
                    }
                }
                hi = mid;
            },
        }
    }
    Err(lo)
}

proof fn lemma_insert_keeps_sorted(s: Seq<Seq<char>>, i: int, k: Seq<char>)
    requires
        strictly_sorted(s),
        0 <= i <= s.len(),
        forall|j: int| 0 <= j < i ==> seq_lt(#[trigger] s[j], k),
        forall|j: int| i <= j < s.len() ==> seq_lt(k, #[trigger] s[j]),
    ensures
        strictly_sorted(s.insert(i, k)),
{
    let t = s.insert(i, k);
    assert forall|a: int, b: int| 0 <= a < b < t.len() implies seq_lt(#[trigger] t[a], #[trigger] t[b]) by {
        if b < i {
            assert(t[a] == s[a] && t[b] == s[b]);
        } else if b == i {
            assert(t[a] == s[a]);
        } else if a < i {
            assert(t[a] == s[a] && t[b] == s[b - 1]);
            lemma_seq_lt_transitive(s[a], k, s[b - 1]);
        } else if a == i {
            assert(t[b] == s[b - 1]);
        } else {
            assert(t[a] == s[a - 1] && t[b] == s[b - 1]);
        }
    }
}

/// Inserts `k` into the sorted `keys` unless it is already there; returns
/// whether it was inserted.
pub fn insert_sorted(keys: &mut Vec<Vec<char>>, k: Vec<char>) -> (inserted: bool)
    requires
        strictly_sorted(views(old(keys)@)),
    ensures
        strictly_sorted(views(final(keys)@)),
        inserted == !views(old(keys)@).contains(k@),
        forall|x: Seq<char>| #[trigger] views(final(keys)@).contains(x) <==> (views(old(keys)@).contains(x) || x == k@),
{
    let ghost old_views = views(keys@);
    match search_sorted(keys, &k) {
        Ok(i) => {
            proof {
                assert(old_views[i as int] == k@);
            }
            false
        },
        Err(i) => {
            proof {
                assert forall|j: int| 0 <= j < i implies seq_lt(#[trigger] old_views[j], k@) by {
                    assert(old_views[j] == keys@[j]@);
                }
                assert forall|j: int| i <= j < old_views.len() implies seq_lt(k@, #[trigger] old_views[j]) by {
                    assert(old_views[j] == keys@[j]@);
                }
                lemma_insert_keeps_sorted(old_views, i as int, k@);
                if old_views.contains(k@) {
                    let j = choose|j: int| 0 <= j < old_views.len() && old_views[j] == k@;
                    lemma_seq_lt_irreflexive(k@);
                    if j < i {
                        assert(seq_lt(old_views[j], k@));
                    } else {
                        assert(seq_lt(k@, old_views[j]));
                    }
                }
            }
            let ghost kv = k@;
            keys.insert(i, k);
            proof {
                assert(views(keys@) =~= old_views.insert(i as int, kv));
                assert forall|x: Seq<char>| #[trigger] views(keys@).contains(x) <==> (old_views.contains(x) || x == kv) by {
                    let t = old_views.insert(i as int, kv);
                    if old_views.contains(x) {
                        let j = choose|j: int| 0 <= j < old_views.len() && old_views[j] == x;
                        if j < i {
                            assert(t[j] == x);
                        } else {
                            assert(t[j + 1] == x);
                        }
                    }
                    if x == kv {
                        assert(t[i as int] == x);
                    }
                    if t.contains(x) {
                        let j = choose|j: int| 0 <= j < t.len() && t[j] == x;
                        if j < i {
                            assert(old_views[j] == x);
                        } else if j > i {
                            assert(old_views[j - 1] == x);
                        }
                    }
                }
            }
            true
        },
    }
}

} // verus!
