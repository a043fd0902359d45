//! Ranking songs against a free-text query. Texts are compared trimmed
//! and lower-cased. Each candidate comes with an order key: a larger key is
//! a closer match (the caller derives it from the similarity score so that
//! comparing keys compares scores). The library picks the single best match
//! above a confidence floor, and lists candidates best first, equal keys in
//! the order given, up to a limit.

use vstd::prelude::*;

use crate::text::{lowercase, to_lowercase, trim, trimmed};

verus! {

/// Text as it is compared: trimmed, then lower-cased.
pub fn normalize(s: &str) -> (r: String)
    ensures
        r@ == lowercase(trim(s@)),
{
    let t = trimmed(s);
    to_lowercase(t.as_str())
}

/// Candidate `i` ranks before candidate `j`: a larger key, or an equal key
/// and an earlier position.
pub open spec fn ranks_before(keys: Seq<u64>, i: int, j: int) -> bool {
    keys[i] > keys[j] || (keys[i] == keys[j] && i < j)
}

/// Candidate `i` takes part in a ranking: it is eligible and its key
/// reaches the floor.
pub open spec fn qualifies(keys: Seq<u64>, eligible: Seq<bool>, floor: u64, i: int) -> bool {
    0 <= i < keys.len() && eligible[i] && keys[i] >= floor
}

/// The number of qualifying candidates among the first `n`.
pub open spec fn count_qualifying(keys: Seq<u64>, eligible: Seq<bool>, floor: u64, n: int) -> nat
    decreases n,
{
    if n <= 0 {
        0
    } else {
        count_qualifying(keys, eligible, floor, n - 1) + if qualifies(
            keys,
            eligible,
            floor,
            n - 1,
        ) {
            1nat
        } else {
            0nat
        }
    }
}

/// `r` lists the first `limit` qualifying candidates in ranking order: each
/// qualifies, each ranks before the next, it is as long as `limit` allows,
/// and every qualifying candidate left out ranks after all of them.
pub open spec fn is_top_ranking(
    keys: Seq<u64>,
    eligible: Seq<bool>,
    floor: u64,
    limit: nat,
    r: Seq<usize>,
) -> bool {
    &&& forall|p: int| 0 <= p < r.len() ==> qualifies(keys, eligible, floor, #[trigger] r[p] as int)
    &&& forall|p: int, q: int|
        0 <= p < q < r.len() ==> ranks_before(keys, #[trigger] r[p] as int, #[trigger] r[q] as int)
    &&& r.len() == if limit < count_qualifying(keys, eligible, floor, keys.len() as int) {
        limit
    } else {
        count_qualifying(keys, eligible, floor, keys.len() as int)
    }
    &&& forall|j: int|
        qualifies(keys, eligible, floor, j) && !r.contains(j as usize) ==> forall|p: int|
            0 <= p < r.len() ==> ranks_before(keys, #[trigger] r[p] as int, j)
}

/// The best match when one scores above `floor`: the largest key, the last
/// of equal ones (a later candidate with an equal key replaces an earlier
/// one); none when no key is above the floor.
pub fn best_match_index(keys: &Vec<u64>, floor: u64) -> (r: Option<usize>)
    ensures
        r is None <==> forall|i: int| 0 <= i < keys@.len() ==> keys@[i] <= floor,
        r matches Some(b) ==> {
            &&& b < keys@.len()
            &&& keys@[b as int] > floor
            &&& forall|j: int| 0 <= j < keys@.len() ==> keys@[j] <= keys@[b as int]
            &&& forall|j: int| b < j < keys@.len() ==> keys@[j] < keys@[b as int]
        },
{
    let mut best: Option<usize> = None;
    let mut i: usize = 0;
    while i < keys.len()
        invariant
            i <= keys@.len(),
            best is None ==> forall|j: int| 0 <= j < i ==> keys@[j] <= floor,
            best matches Some(b) ==> {
                &&& b < i
                &&& keys@[b as int] > floor
                &&& forall|j: int| 0 <= j < i ==> keys@[j] <= keys@[b as int]
                &&& forall|j: int| b < j < i ==> keys@[j] < keys@[b as int]
            },
        decreases keys@.len() - i,
    {
        let take = match best {
            None => keys[i] > floor,
            Some(b) => keys[i] >= keys[b],
        };
        if take {
            best = Some(i);
        }
        i = i + 1;
    }
    best
}

proof fn lemma_count_bounds(keys: Seq<u64>, eligible: Seq<bool>, floor: u64, n: int)
    requires
        0 <= n,
    ensures
        count_qualifying(keys, eligible, floor, n) <= n,
    decreases n,
{
    if n > 0 {
        lemma_count_bounds(keys, eligible, floor, n - 1);
    }
}

/// The number of qualifying candidates is the number chosen plus the
/// number of qualifying ones not chosen.
proof fn lemma_count_split(
    keys: Seq<u64>,
    eligible: Seq<bool>,
    floor: u64,
    chosen: Seq<bool>,
    n: int,
)
    requires
        0 <= n <= keys.len(),
        chosen.len() == keys.len(),
        forall|j: int| 0 <= j < keys.len() && chosen[j] ==> qualifies(keys, eligible, floor, j),
    ensures
        count_qualifying(keys, eligible, floor, n) == count_marked(chosen, n) + count_open(
            keys,
            eligible,
            floor,
            chosen,
            n,
        ),
    decreases n,
{
    if n > 0 {
        lemma_count_split(keys, eligible, floor, chosen, n - 1);
    }
}

/// The number of marked positions among the first `n`.
pub open spec fn count_marked(chosen: Seq<bool>, n: int) -> nat
    decreases n,
{
    if n <= 0 {
        0
    } else {
        count_marked(chosen, n - 1) + if chosen[n - 1] {
            1nat
        } else {
            0nat
        }
    }
}

/// The number of qualifying, unmarked positions among the first `n`.
pub open spec fn count_open(
    keys: Seq<u64>,
    eligible: Seq<bool>,
    floor: u64,
    chosen: Seq<bool>,
    n: int,
) -> nat
    decreases n,
{
    if n <= 0 {
        0
    } else {
        count_open(keys, eligible, floor, chosen, n - 1) + if qualifies(keys, eligible, floor, n - 1)
            && !chosen[n - 1] {
            1nat
        } else {
            0nat
        }
    }
}

proof fn lemma_count_open_zero(
    keys: Seq<u64>,
    eligible: Seq<bool>,
    floor: u64,
    chosen: Seq<bool>,
    n: int,
)
    requires
        0 <= n <= keys.len(),
        chosen.len() == keys.len(),
        forall|j: int| 0 <= j < n ==> !(qualifies(keys, eligible, floor, j) && !chosen[j]),
    ensures
        count_open(keys, eligible, floor, chosen, n) == 0,
    decreases n,
{
    if n > 0 {
        lemma_count_open_zero(keys, eligible, floor, chosen, n - 1);
    }
}

proof fn lemma_count_marked_update(chosen: Seq<bool>, m: int, n: int)
    requires
        0 <= m < chosen.len(),
        0 <= n <= chosen.len(),
        !chosen[m],
    ensures
        count_marked(chosen.update(m, true), n) == count_marked(chosen, n) + if m < n {
            1nat
        } else {
            0nat
        },
    decreases n,
{
    if n > 0 {
        lemma_count_marked_update(chosen, m, n - 1);
    }
}

proof fn lemma_count_marked_empty(chosen: Seq<bool>, n: int)
    requires
        0 <= n <= chosen.len(),
        forall|j: int| 0 <= j < chosen.len() ==> !chosen[j],
    ensures
        count_marked(chosen, n) == 0,
    decreases n,
{
    if n > 0 {
        lemma_count_marked_empty(chosen, n - 1);
    }
}

/// Qualifying candidates in ranking order, at most `limit` of them (see
/// `is_top_ranking`); `eligible` says which candidates take part.
pub fn ranked_indices(keys: &Vec<u64>, eligible: &Vec<bool>, floor: u64, limit: usize) -> (r: Vec<
    usize,
>)
    requires
        eligible@.len() == keys@.len(),
    ensures
        is_top_ranking(keys@, eligible@, floor, limit as nat, r@),
{
    let n = keys.len();
    let ghost ks = keys@;
    let ghost el = eligible@;
    let mut chosen: Vec<bool> = Vec::new();
    let mut k: usize = 0;
    while k < n
        invariant
            n == keys@.len(),
            k <= n,
            chosen@.len() == k,
            forall|j: int| 0 <= j < k ==> !chosen@[j],
        decreases n - k,
    {
        chosen.push(false);
        k = k + 1;
    }
    let mut r: Vec<usize> = Vec::new();
    proof {
        lemma_count_marked_empty(chosen@, n as int);
        lemma_count_split(ks, el, floor, chosen@, n as int);
        lemma_count_bounds(ks, el, floor, n as int);
    }
    while r.len() < limit
        invariant
            n == keys@.len(),
            ks == keys@,
            el == eligible@,
            el.len() == n,
            chosen@.len() == n,
            forall|j: int| 0 <= j < n && chosen@[j] ==> qualifies(ks, el, floor, j),
            forall|j: int| 0 <= j < n ==> (chosen@[j] <==> r@.contains(j as usize)),
            forall|p: int| 0 <= p < r@.len() ==> (#[trigger] r@[p]) < n,
            forall|p: int| 0 <= p < r@.len() ==> qualifies(ks, el, floor, #[trigger] r@[p] as int),
            forall|p: int, q: int|
                0 <= p < q < r@.len() ==> ranks_before(
                    ks,
                    #[trigger] r@[p] as int,
                    #[trigger] r@[q] as int,
                ),
            forall|j: int|
                qualifies(ks, el, floor, j) && !chosen@[j] ==> forall|p: int|
                    0 <= p < r@.len() ==> ranks_before(ks, #[trigger] r@[p] as int, j),
            count_marked(chosen@, n as int) == r@.len(),
            r@.len() <= limit,
            count_qualifying(ks, el, floor, n as int) == r@.len() + count_open(
                ks,
                el,
                floor,
                chosen@,
                n as int,
            ),
        ensures
            r@.len() < limit ==> count_open(ks, el, floor, chosen@, n as int) == 0,
        decreases limit - r@.len(),
    {
        let mut pick: Option<usize> = None;
        let mut i: usize = 0;
        while i < n
            invariant
                n == keys@.len(),
                ks == keys@,
                el == eligible@,
                el.len() == n,
                chosen@.len() == n,
                i <= n,
                pick is None ==> forall|j: int|
                    0 <= j < i ==> !(qualifies(ks, el, floor, j) && !chosen@[j]),
                pick matches Some(m) ==> {
                    &&& m < i
                    &&& qualifies(ks, el, floor, m as int)
                    &&& !chosen@[m as int]
                    &&& forall|j: int|
                        0 <= j < i && j != m && qualifies(ks, el, floor, j) && !chosen@[j]
                            ==> ranks_before(ks, m as int, j)
                },
            decreases n - i,
        {
            if eligible[i] && keys[i] >= floor && !chosen[i] {
                match pick {
                    None => {
                        pick = Some(i);
                    },
                    Some(m) => {
                        if keys[i] > keys[m] {
                            pick = Some(i);
                        }
                    },
                }
            }
            i = i + 1;
        }
        match pick {
            None => {
                proof {
                    lemma_count_open_zero(ks, el, floor, chosen@, n as int);
                }
                break;
            },
            Some(m) => {
                let ghost old_chosen = chosen@;
                let ghost old_r = r@;
                proof {
                    lemma_count_marked_update(old_chosen, m as int, n as int);
                    lemma_count_split(ks, el, floor, old_chosen.update(m as int, true), n as int);
                    lemma_count_split(ks, el, floor, old_chosen, n as int);
                }
                chosen.set(m, true);
                r.push(m);
                proof {
                    assert(chosen@ == old_chosen.update(m as int, true));
                    assert forall|j: int| 0 <= j < n implies (chosen@[j] <==> r@.contains(
                        j as usize,
                    )) by {
                        if j == m as int {
                            assert(r@[r@.len() - 1] == m);
                        } else {
                            if old_r.contains(j as usize) {
                                let p = choose|p: int|
                                    0 <= p < old_r.len() && old_r[p] == j as usize;
                                assert(r@[p] == j as usize);
                            }
                            if r@.contains(j as usize) {
                                let p = choose|p: int| 0 <= p < r@.len() && r@[p] == j as usize;
                                assert(p < old_r.len());
                                assert(old_r[p] == j as usize);
                            }
                        }
                    }
                    assert forall|p: int, q: int|
                        0 <= p < q < r@.len() implies ranks_before(
                        ks,
                        #[trigger] r@[p] as int,
                        #[trigger] r@[q] as int,
                    ) by {
                        if q == r@.len() - 1 {
                            assert(old_r[p] == r@[p]);
                        } else {
                            assert(old_r[p] == r@[p]);
                            assert(old_r[q] == r@[q]);
                        }
                    }
                    assert forall|j: int|
                        qualifies(ks, el, floor, j) && !chosen@[j] implies forall|p: int|
                        0 <= p < r@.len() ==> ranks_before(ks, #[trigger] r@[p] as int, j) by {
                        assert(j != m as int);
                        assert(!old_chosen[j]);
                        assert forall|p: int| 0 <= p < r@.len() implies ranks_before(
                            ks,
                            #[trigger] r@[p] as int,
                            j,
                        ) by {
                            if p < old_r.len() {
                                assert(old_r[p] == r@[p]);
                            }
                        }
                    }
                }
            },
        }
    }
    proof {
        let c = count_qualifying(ks, el, floor, n as int);
        if r@.len() < limit {
            assert(count_open(ks, el, floor, chosen@, n as int) == 0);
        } else {
            assert(r@.len() <= c);
        }
        assert forall|j: int|
            qualifies(ks, el, floor, j) && !r@.contains(j as usize) implies forall|p: int|
            0 <= p < r@.len() ==> ranks_before(ks, #[trigger] r@[p] as int, j) by {
            assert(!chosen@[j]);
        }
    }
    r
}

/// The best match for `query` among candidates with order keys `keys`, if
/// its key is above the confidence floor `floor`; none for a blank query.
pub fn find_best_matching_local_song(query: &str, keys: &Vec<u64>, floor: u64) -> (r: Option<usize>)
    ensures
        trim(query@).len() == 0 ==> r is None,
        trim(query@).len() > 0 ==> {
            &&& (r is None <==> forall|i: int| 0 <= i < keys@.len() ==> keys@[i] <= floor)
            &&& r matches Some(b) ==> {
                &&& b < keys@.len()
                &&& keys@[b as int] > floor
                &&& forall|j: int| 0 <= j < keys@.len() ==> keys@[j] <= keys@[b as int]
                &&& forall|j: int| b < j < keys@.len() ==> keys@[j] < keys@[b as int]
            }
        },
{
    if trimmed(query).as_str().is_empty() {
        return None;
    }
    best_match_index(keys, floor)
}

/// Every candidate whose key reaches the search floor `floor`, best first,
/// at most `limit`; nothing for a blank query.
pub fn search_songs_ranked(query: &str, keys: &Vec<u64>, floor: u64, limit: usize) -> (r: Vec<usize>)
    ensures
        trim(query@).len() == 0 ==> r@.len() == 0,
        trim(query@).len() > 0 ==> is_top_ranking(
            keys@,
            Seq::new(keys@.len(), |i: int| true),
            floor,
            limit as nat,
            r@,
        ),
{
    if trimmed(query).as_str().is_empty() {
        return Vec::new();
    }
    let mut all: Vec<bool> = Vec::new();
    let mut i: usize = 0;
    while i < keys.len()
        invariant
            i <= keys@.len(),
            all@ == Seq::new(i as nat, |j: int| true),
        decreases keys@.len() - i,
    {
        all.push(true);
        i = i + 1;
    }
    ranked_indices(keys, &all, floor, limit)
}

/// The analyzed candidates ranked by their keys, best first, at most
/// `limit`, with no floor. A blank query scores every candidate alike, so
/// they keep their order.
pub fn find_alternative_analyzed_songs(
    query: &str,
    keys: &Vec<u64>,
    analyzed: &Vec<bool>,
    limit: usize,
) -> (r: Vec<usize>)
    requires
        analyzed@.len() == keys@.len(),
    ensures
        trim(query@).len() == 0 ==> is_top_ranking(
            Seq::new(keys@.len(), |i: int| 0u64),
            analyzed@,
            0,
            limit as nat,
            r@,
        ),
        trim(query@).len() > 0 ==> is_top_ranking(keys@, analyzed@, 0, limit as nat, r@),
{
    if trimmed(query).as_str().is_empty() {
        let mut zeros: Vec<u64> = Vec::new();
        let mut i: usize = 0;
        while i < keys.len()
            invariant
                i <= keys@.len(),
                zeros@ == Seq::new(i as nat, |j: int| 0u64),
            decreases keys@.len() - i,
        {
            zeros.push(0);
            i = i + 1;
        }
        return ranked_indices(&zeros, analyzed, 0, limit);
    }
    ranked_indices(keys, analyzed, 0, limit)
}

} // verus!
