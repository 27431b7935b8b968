//! The entity records the tool works with, and the pure part of a run:
//! diffing the current top list against the previously persisted one.
//!
//! A market-cap magnitude is carried as its decimal display text, so
//! that the record can flow into the rendering context unchanged.

use vstd::prelude::*;

verus! {

/// One listed entity.
#[derive(Debug, Clone)]
pub struct Coin {
    pub id: i64,
    pub name: String,
    pub symbol: String,
    pub rank: i64,
    pub market_cap: Option<String>,
    pub market_cap_currency: String,
}

/// One previously published notification.
#[derive(Debug, Clone)]
pub struct RecentPost {
    pub created_at_utc: String,
    pub text: String,
    pub mentioned_coins: Vec<Coin>,
}

/// The identifiers of `coins`, in order.
pub fn coin_ids(coins: &Vec<Coin>) -> (r: Vec<i64>)
    ensures
        r@.len() == coins@.len(),
        forall|i: int| 0 <= i < coins@.len() ==> r@[i] == coins@[i].id,
{
    let mut r: Vec<i64> = Vec::new();
    let mut i: usize = 0;
    while i < coins.len()
        invariant
            0 <= i <= coins@.len(),
            r@.len() == i,
            forall|j: int| 0 <= j < i ==> r@[j] == coins@[j].id,
        decreases coins@.len() - i,
    {
        r.push(coins[i].id);
        i = i + 1;
    }
    r
}

fn contains_id(v: &Vec<i64>, x: i64) -> (r: bool)
    ensures
        r == v@.contains(x),
{
    let mut i: usize = 0;
    while i < v.len()
        invariant
            0 <= i <= v@.len(),
            forall|j: int| 0 <= j < i ==> v@[j] != x,
        decreases v@.len() - i,
    {
        if v[i] == x {
            assert(v@.contains(x)) by {
                assert(v@[i as int] == x);
            }
            return true;
        }
        i = i + 1;
    }
    proof {
        if v@.contains(x) {
            let j = choose|j: int| 0 <= j < v@.len() && v@[j] == x;
            assert(v@[j] != x);
        }
    }
    false
}

/// The positions, in increasing order, of the entries of `ids` whose
/// identifier does not occur in `other`. This is the diff step of a run:
/// against the previous identifiers it selects the new entrants, and in
/// the other direction the entities that left.
pub fn indices_not_in(ids: &Vec<i64>, other: &Vec<i64>) -> (r: Vec<usize>)
    ensures
        forall|k: int|
            0 <= k < r@.len() ==> r@[k] < ids@.len() && !other@.contains(ids@[r@[k] as int]),
        forall|k1: int, k2: int| 0 <= k1 < k2 < r@.len() ==> r@[k1] < r@[k2],
        forall|i: int|
            0 <= i < ids@.len() && !other@.contains(ids@[i]) ==> r@.contains(i as usize),
{
    let mut r: Vec<usize> = Vec::new();
    let mut i: usize = 0;
    while i < ids.len()
        invariant
            0 <= i <= ids@.len(),
            forall|k: int|
                0 <= k < r@.len() ==> r@[k] < i && !other@.contains(ids@[r@[k] as int]),
            forall|k1: int, k2: int| 0 <= k1 < k2 < r@.len() ==> r@[k1] < r@[k2],
            forall|j: int| 0 <= j < i && !other@.contains(ids@[j]) ==> r@.contains(j as usize),
        decreases ids@.len() - i,
    {
        if !contains_id(other, ids[i]) {
            let ghost old_r = r@;
            r.push(i);
            proof {
                assert(r@[r@.len() - 1] == i);
                assert forall|j: int|
                    0 <= j < i + 1 && !other@.contains(ids@[j]) implies r@.contains(
                    j as usize,
                ) by {
                    if j < i {
                        assert(old_r.contains(j as usize));
                        let k = choose|k: int| 0 <= k < old_r.len() && old_r[k] == j as usize;
                        assert(r@[k] == j as usize);
                    } else {
                        assert(r@[r@.len() - 1] == j as usize);
                    }
                }
            }
        }
        i = i + 1;
    }
    r
}

} // verus!
