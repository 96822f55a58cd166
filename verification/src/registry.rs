//! Lists of keyed entries seen as maps: the model of the game table and of
//! the table of active matches, both keyed by text.

use vstd::prelude::*;

verus! {

/// No two entries of `s` share a key.
pub open spec fn unique_keys<V>(s: Seq<(Seq<char>, V)>) -> bool {
    forall|i: int, j: int|
        0 <= i < s.len() && 0 <= j < s.len() && i != j ==> #[trigger] s[i].0 != #[trigger] s[j].0
}

/// Some entry of `s` has key `k`.
pub open spec fn has_key<V>(s: Seq<(Seq<char>, V)>, k: Seq<char>) -> bool {
    exists|i: int| 0 <= i < s.len() && #[trigger] s[i].0 == k
}

/// The map from each key of `s` to the value stored with it.
pub open spec fn keyed_map<V>(s: Seq<(Seq<char>, V)>) -> Map<Seq<char>, V> {
    Map::new(
        |k: Seq<char>| has_key(s, k),
        |k: Seq<char>| s[choose|i: int| 0 <= i < s.len() && #[trigger] s[i].0 == k].1,
    )
}

/// With unique keys, the map gives each entry's value for its key.
pub proof fn lemma_keyed_at<V>(s: Seq<(Seq<char>, V)>, i: int)
    requires
        unique_keys(s),
        0 <= i < s.len(),
    ensures
        keyed_map(s).dom().contains(s[i].0),
        keyed_map(s)[s[i].0] == s[i].1,
{
    assert(has_key(s, s[i].0));
    let j = choose|j: int| 0 <= j < s.len() && #[trigger] s[j].0 == s[i].0;
    assert(j == i);
}

/// Replacing the value of entry `i` replaces the value of its key.
pub proof fn lemma_keyed_update<V>(s: Seq<(Seq<char>, V)>, i: int, v: V)
    requires
        unique_keys(s),
        0 <= i < s.len(),
    ensures
        unique_keys(s.update(i, (s[i].0, v))),
        keyed_map(s.update(i, (s[i].0, v))) == keyed_map(s).insert(s[i].0, v),
{
    let s2 = s.update(i, (s[i].0, v));
    assert forall|a: int, b: int|
        0 <= a < s2.len() && 0 <= b < s2.len() && a != b implies #[trigger] s2[a].0
        != #[trigger] s2[b].0 by {
        assert(s2[a].0 == s[a].0);
        assert(s2[b].0 == s[b].0);
    }
    let m = keyed_map(s).insert(s[i].0, v);
    assert forall|k: Seq<char>| #[trigger] keyed_map(s2).dom().contains(k) <==> m.dom().contains(k) by {
        if has_key(s2, k) {
            let j = choose|j: int| 0 <= j < s2.len() && #[trigger] s2[j].0 == k;
            assert(s[j].0 == k);
        }
        if has_key(s, k) {
            let j = choose|j: int| 0 <= j < s.len() && #[trigger] s[j].0 == k;
            assert(s2[j].0 == k);
        }
    }
    assert forall|k: Seq<char>| #[trigger] keyed_map(s2).dom().contains(k) implies keyed_map(s2)[k]
        == m[k] by {
        let j = choose|j: int| 0 <= j < s2.len() && #[trigger] s2[j].0 == k;
        lemma_keyed_at(s2, j);
        if j != i {
            lemma_keyed_at(s, j);
        }
    }
    assert(keyed_map(s2) =~= m);
}

/// Appending an entry with a new key adds that key.
pub proof fn lemma_keyed_push<V>(s: Seq<(Seq<char>, V)>, k: Seq<char>, v: V)
    requires
        unique_keys(s),
        !has_key(s, k),
    ensures
        unique_keys(s.push((k, v))),
        keyed_map(s.push((k, v))) == keyed_map(s).insert(k, v),
{
    let s2 = s.push((k, v));
    assert forall|a: int, b: int|
        0 <= a < s2.len() && 0 <= b < s2.len() && a != b implies #[trigger] s2[a].0
        != #[trigger] s2[b].0 by {
        if a < s.len() && b < s.len() {
            assert(s2[a].0 == s[a].0);
            assert(s2[b].0 == s[b].0);
        } else if a < s.len() {
            assert(s2[a].0 == s[a].0);
        } else if b < s.len() {
            assert(s2[b].0 == s[b].0);
        }
    }
    let m = keyed_map(s).insert(k, v);
    assert forall|x: Seq<char>| #[trigger] keyed_map(s2).dom().contains(x) <==> m.dom().contains(x) by {
        if has_key(s2, x) {
            let j = choose|j: int| 0 <= j < s2.len() && #[trigger] s2[j].0 == x;
            if j < s.len() {
                assert(s[j].0 == x);
            }
        }
        if has_key(s, x) {
            let j = choose|j: int| 0 <= j < s.len() && #[trigger] s[j].0 == x;
            assert(s2[j].0 == x);
        }
        if x == k {
            assert(s2[s.len() as int].0 == k);
        }
    }
    assert forall|x: Seq<char>| #[trigger] keyed_map(s2).dom().contains(x) implies keyed_map(s2)[x]
        == m[x] by {
        let j = choose|j: int| 0 <= j < s2.len() && #[trigger] s2[j].0 == x;
        lemma_keyed_at(s2, j);
        if j < s.len() {
            assert(s2[j] == s[j]);
            lemma_keyed_at(s, j);
        }
    }
    assert(keyed_map(s2) =~= m);
}

/// Removing entry `i` removes its key.
pub proof fn lemma_keyed_remove<V>(s: Seq<(Seq<char>, V)>, i: int)
    requires
        unique_keys(s),
        0 <= i < s.len(),
    ensures
        unique_keys(s.remove(i)),
        keyed_map(s.remove(i)) == keyed_map(s).remove(s[i].0),
{
    let s2 = s.remove(i);
    assert forall|a: int, b: int|
        0 <= a < s2.len() && 0 <= b < s2.len() && a != b implies #[trigger] s2[a].0
        != #[trigger] s2[b].0 by {
        let a1 = if a < i { a } else { a + 1 };
        let b1 = if b < i { b } else { b + 1 };
        assert(s2[a] == s[a1]);
        assert(s2[b] == s[b1]);
    }
    let m = keyed_map(s).remove(s[i].0);
    assert forall|x: Seq<char>| #[trigger] keyed_map(s2).dom().contains(x) <==> m.dom().contains(x) by {
        if has_key(s2, x) {
            let j = choose|j: int| 0 <= j < s2.len() && #[trigger] s2[j].0 == x;
            let j1 = if j < i { j } else { j + 1 };
            assert(s2[j] == s[j1]);
            assert(s[j1].0 == x);
        }
        if has_key(s, x) && x != s[i].0 {
            let j = choose|j: int| 0 <= j < s.len() && #[trigger] s[j].0 == x;
            let j2 = if j < i { j } else { j - 1 };
            assert(s2[j2] == s[j]);
            assert(s2[j2].0 == x);
        }
    }
    assert forall|x: Seq<char>| #[trigger] keyed_map(s2).dom().contains(x) implies keyed_map(s2)[x]
        == m[x] by {
        let j = choose|j: int| 0 <= j < s2.len() && #[trigger] s2[j].0 == x;
        let j1 = if j < i { j } else { j + 1 };
        assert(s2[j] == s[j1]);
        lemma_keyed_at(s2, j);
        lemma_keyed_at(s, j1);
    }
    assert(keyed_map(s2) =~= m);
}

} // verus!
