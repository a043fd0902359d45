//! Rows of a table keyed by a primary key, and the map they stand for.

use vstd::prelude::*;

verus! {

/// The map a sequence of rows stands for: each row written in order, a
/// later row replacing an earlier one with the same key.
pub open spec fn fold_map<T, K, V>(s: Seq<T>, key: spec_fn(T) -> K, val: spec_fn(T) -> V) -> Map<
    K,
    V,
>
    decreases s.len(),
{
    if s.len() == 0 {
        Map::empty()
    } else {
        fold_map(s.drop_last(), key, val).insert(key(s.last()), val(s.last()))
    }
}

/// No two rows share a key.
pub open spec fn distinct_keys<T, K>(s: Seq<T>, key: spec_fn(T) -> K) -> bool {
    forall|i: int, j: int| 0 <= i < j < s.len() ==> key(s[i]) != key(s[j])
}

/// Whether some row has key `k`.
pub open spec fn has_key<T, K>(s: Seq<T>, key: spec_fn(T) -> K, k: K) -> bool {
    exists|i: int| 0 <= i < s.len() && key(s[i]) == k
}

/// The map has exactly the keys of the rows, and finitely many.
pub proof fn lemma_fold_domain<T, K, V>(s: Seq<T>, key: spec_fn(T) -> K, val: spec_fn(T) -> V)
    ensures
        forall|k: K| #[trigger] fold_map(s, key, val).contains_key(k) <==> has_key(s, key, k),
        fold_map(s, key, val).dom().finite(),
    decreases s.len(),
{
    if s.len() > 0 {
        let p = s.drop_last();
        lemma_fold_domain(p, key, val);
        assert forall|k: K| #[trigger] fold_map(s, key, val).contains_key(k) <==> has_key(
            s,
            key,
            k,
        ) by {
            if has_key(p, key, k) {
                let i = choose|i: int| 0 <= i < p.len() && key(p[i]) == k;
                assert(s[i] == p[i]);
            }
            if has_key(s, key, k) && key(s.last()) != k {
                let i = choose|i: int| 0 <= i < s.len() && key(s[i]) == k;
                assert(i < s.len() - 1);
                assert(p[i] == s[i]);
            }
            if key(s.last()) == k {
                assert(key(s[s.len() - 1]) == k);
            }
        }
    }
}

/// With distinct keys, each row's key maps to that row's value.
pub proof fn lemma_fold_value<T, K, V>(s: Seq<T>, key: spec_fn(T) -> K, val: spec_fn(T) -> V)
    requires
        distinct_keys(s, key),
    ensures
        forall|i: int|
            0 <= i < s.len() ==> #[trigger] fold_map(s, key, val)[key(s[i])] == val(s[i]),
        forall|i: int| 0 <= i < s.len() ==> fold_map(s, key, val).contains_key(#[trigger] key(s[i])),
    decreases s.len(),
{
    lemma_fold_domain(s, key, val);
    if s.len() > 0 {
        let p = s.drop_last();
        lemma_fold_value(p, key, val);
        assert forall|i: int| 0 <= i < s.len() implies #[trigger] fold_map(s, key, val)[key(s[i])]
            == val(s[i]) by {
            if i < s.len() - 1 {
                assert(p[i] == s[i]);
                assert(key(s[i]) != key(s[s.len() - 1]));
            }
        }
        assert forall|i: int| 0 <= i < s.len() implies fold_map(s, key, val).contains_key(
            #[trigger] key(s[i]),
        ) by {
            assert(has_key(s, key, key(s[i])));
        }
    }
}

/// Replacing a row by one with the same key writes that key's value.
pub proof fn lemma_fold_update<T, K, V>(
    s: Seq<T>,
    i: int,
    t: T,
    key: spec_fn(T) -> K,
    val: spec_fn(T) -> V,
)
    requires
        distinct_keys(s, key),
        0 <= i < s.len(),
        key(t) == key(s[i]),
    ensures
        distinct_keys(s.update(i, t), key),
        fold_map(s.update(i, t), key, val) == fold_map(s, key, val).insert(key(t), val(t)),
{
    let u = s.update(i, t);
    assert(distinct_keys(u, key)) by {
        assert forall|a: int, b: int| 0 <= a < b < u.len() implies key(u[a]) != key(u[b]) by {
            if a != i && b != i {
                assert(key(s[a]) != key(s[b]));
            } else if a == i {
                assert(key(s[i]) != key(s[b]));
            } else {
                assert(key(s[a]) != key(s[i]));
            }
        }
    }
    lemma_fold_domain(s, key, val);
    lemma_fold_domain(u, key, val);
    lemma_fold_value(s, key, val);
    lemma_fold_value(u, key, val);
    let m1 = fold_map(u, key, val);
    let m2 = fold_map(s, key, val).insert(key(t), val(t));
    assert forall|k: K| m1.contains_key(k) <==> m2.contains_key(k) by {
        if has_key(s, key, k) {
            let j = choose|j: int| 0 <= j < s.len() && key(s[j]) == k;
            if j != i {
                assert(key(u[j]) == k);
            } else {
                assert(key(u[i]) == k);
            }
        }
        if has_key(u, key, k) {
            let j = choose|j: int| 0 <= j < u.len() && key(u[j]) == k;
            if j != i {
                assert(key(s[j]) == k);
            }
        }
    }
    assert forall|k: K| m1.contains_key(k) implies m1[k] == m2[k] by {
        let j = choose|j: int| 0 <= j < u.len() && key(u[j]) == k;
        assert(m1[key(u[j])] == val(u[j]));
        if j != i {
            assert(u[j] == s[j]);
            assert(fold_map(s, key, val)[key(s[j])] == val(s[j]));
        }
    }
    assert(m1 =~= m2);
}

/// Removing a row removes its key.
pub proof fn lemma_fold_remove<T, K, V>(s: Seq<T>, i: int, key: spec_fn(T) -> K, val: spec_fn(T) -> V)
    requires
        distinct_keys(s, key),
        0 <= i < s.len(),
    ensures
        distinct_keys(s.remove(i), key),
        fold_map(s.remove(i), key, val) == fold_map(s, key, val).remove(key(s[i])),
{
    let u = s.remove(i);
    assert(distinct_keys(u, key)) by {
        assert forall|a: int, b: int| 0 <= a < b < u.len() implies key(u[a]) != key(u[b]) by {
            let a2 = if a < i { a } else { a + 1 };
            let b2 = if b < i { b } else { b + 1 };
            assert(u[a] == s[a2]);
            assert(u[b] == s[b2]);
        }
    }
    lemma_fold_domain(s, key, val);
    lemma_fold_domain(u, key, val);
    lemma_fold_value(s, key, val);
    lemma_fold_value(u, key, val);
    let m1 = fold_map(u, key, val);
    let m2 = fold_map(s, key, val).remove(key(s[i]));
    assert forall|k: K| m1.contains_key(k) <==> m2.contains_key(k) by {
        if has_key(s, key, k) && k != key(s[i]) {
            let j = choose|j: int| 0 <= j < s.len() && key(s[j]) == k;
            let j2 = if j < i { j } else { j - 1 };
            assert(u[j2] == s[j]);
        }
        if has_key(u, key, k) {
            let j = choose|j: int| 0 <= j < u.len() && key(u[j]) == k;
            let j2 = if j < i { j } else { j + 1 };
            assert(u[j] == s[j2]);
            assert(j2 != i);
        }
    }
    assert forall|k: K| m1.contains_key(k) implies m1[k] == m2[k] by {
        let j = choose|j: int| 0 <= j < u.len() && key(u[j]) == k;
        let j2 = if j < i { j } else { j + 1 };
        assert(u[j] == s[j2]);
        assert(m1[key(u[j])] == val(u[j]));
        assert(fold_map(s, key, val)[key(s[j2])] == val(s[j2]));
    }
    assert(m1 =~= m2);
}

/// Appending a row with a new key keeps the keys distinct.
pub proof fn lemma_push_distinct<T, K>(s: Seq<T>, t: T, key: spec_fn(T) -> K)
    requires
        distinct_keys(s, key),
        !has_key(s, key, key(t)),
    ensures
        distinct_keys(s.push(t), key),
{
    let u = s.push(t);
    assert forall|a: int, b: int| 0 <= a < b < u.len() implies key(u[a]) != key(u[b]) by {
        if b == s.len() {
            assert(u[a] == s[a]);
            if key(s[a]) == key(t) {
                assert(has_key(s, key, key(t)));
            }
        } else {
            assert(u[a] == s[a] && u[b] == s[b]);
        }
    }
}

} // verus!

verus! {

/// Two row sequences that agree row by row on key and value stand for the
/// same map.
pub proof fn lemma_fold_congruent<T, U, K, V>(
    a: Seq<T>,
    b: Seq<U>,
    ka: spec_fn(T) -> K,
    va: spec_fn(T) -> V,
    kb: spec_fn(U) -> K,
    vb: spec_fn(U) -> V,
)
    requires
        a.len() == b.len(),
        forall|i: int| 0 <= i < a.len() ==> ka(a[i]) == kb(b[i]) && va(a[i]) == vb(b[i]),
    ensures
        fold_map(a, ka, va) == fold_map(b, kb, vb),
    decreases a.len(),
{
    if a.len() > 0 {
        let pa = a.drop_last();
        let pb = b.drop_last();
        assert forall|i: int| 0 <= i < pa.len() implies ka(pa[i]) == kb(pb[i]) && va(pa[i]) == vb(
            pb[i],
        ) by {
            assert(pa[i] == a[i] && pb[i] == b[i]);
        }
        lemma_fold_congruent(pa, pb, ka, va, kb, vb);
        assert(ka(a[a.len() - 1]) == kb(b[b.len() - 1]));
    }
}

/// Applying `f` to each row's value is applying `f` to the map's values.
pub proof fn lemma_fold_compose<T, K, V, W>(
    s: Seq<T>,
    key: spec_fn(T) -> K,
    val: spec_fn(T) -> V,
    f: spec_fn(V) -> W,
    g: spec_fn(T) -> W,
)
    requires
        forall|t: T| #[trigger] g(t) == f(val(t)),
    ensures
        fold_map(s, key, g) == fold_map(s, key, val).map_values(f),
    decreases s.len(),
{
    if s.len() > 0 {
        let p = s.drop_last();
        lemma_fold_compose(p, key, val, f, g);
        let m = fold_map(p, key, val);
        let k = key(s.last());
        assert(m.insert(k, val(s.last())).map_values(f) =~= m.map_values(f).insert(
            k,
            f(val(s.last())),
        ));
        assert(g(s.last()) == f(val(s.last())));
    } else {
        assert(Map::<K, V>::empty().map_values(f) =~= Map::<K, W>::empty());
    }
}

/// The characters of each string in `v`.
pub open spec fn views_of(v: Seq<String>) -> Seq<Seq<char>> {
    v.map_values(|s: String| s@)
}

/// Whether `v` holds a string with the characters of `s`.
pub fn contains_string(v: &Vec<String>, s: &str) -> (r: bool)
    ensures
        r == views_of(v@).contains(s@),
{
    let mut i: usize = 0;
    let target = s.to_owned();
    while i < v.len()
        invariant
            target@ == s@,
            i <= v@.len(),
            forall|j: int| 0 <= j < i ==> v@[j]@ != s@,
        decreases v@.len() - i,
    {
        if v[i] == target {
            assert(views_of(v@)[i as int] == s@);
            return true;
        }
        i = i + 1;
    }
    proof {
        if views_of(v@).contains(s@) {
            let j = choose|j: int| 0 <= j < views_of(v@).len() && views_of(v@)[j] == s@;
            assert(v@[j]@ == s@);
        }
    }
    false
}

} // verus!
