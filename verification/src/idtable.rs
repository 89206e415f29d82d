//! Tables kept as a sequence of entries, each found by a key that no two
//! entries share: which keys a table holds, which entry a key finds, and
//! how taking an entry out or adding one changes both.
use vstd::prelude::*;

verus! {

/// The keys of the entries of `s`.
pub open spec fn keys_of<E, K>(s: Seq<E>, key: spec_fn(E) -> K) -> Set<K> {
    Set::new(|k: K| exists|i: int| 0 <= i < s.len() && key(#[trigger] s[i]) == k)
}

/// No two entries of `s` share a key.
pub open spec fn keys_unique<E, K>(s: Seq<E>, key: spec_fn(E) -> K) -> bool {
    forall|i: int, j: int|
        0 <= i < s.len() && 0 <= j < s.len() && i != j ==> key(#[trigger] s[i]) != key(#[trigger] s[j])
}

/// The entry of `s` with key `k`, if there is one.
pub open spec fn entry_of<E, K>(s: Seq<E>, key: spec_fn(E) -> K, k: K) -> Option<E> {
    if keys_of(s, key).contains(k) {
        Some(s[choose|i: int| 0 <= i < s.len() && key(#[trigger] s[i]) == k])
    } else {
        None
    }
}

/// In a table whose keys are unique, the key of entry `i` finds entry `i`.
pub proof fn lemma_entry_at<E, K>(s: Seq<E>, key: spec_fn(E) -> K, i: int)
    requires
        keys_unique(s, key),
        0 <= i < s.len(),
    ensures
        keys_of(s, key).contains(key(s[i])),
        entry_of(s, key, key(s[i])) == Some(s[i]),
{
    let k = key(s[i]);
    assert(keys_of(s, key).contains(k));
    let j = choose|j: int| 0 <= j < s.len() && key(#[trigger] s[j]) == k;
    if j != i {
        assert(key(s[i]) != key(s[j]));
    }
}

/// Taking entry `i` out of a table whose keys are unique leaves the keys
/// unique, drops exactly its key, and leaves every other key finding what
/// it found.
pub proof fn lemma_remove_at<E, K>(s: Seq<E>, key: spec_fn(E) -> K, i: int)
    requires
        keys_unique(s, key),
        0 <= i < s.len(),
    ensures
        keys_unique(s.remove(i), key),
        keys_of(s.remove(i), key) == keys_of(s, key).remove(key(s[i])),
        forall|k: K| k != key(s[i]) ==> entry_of(s.remove(i), key, k) == entry_of(s, key, k),
{
    let t = s.remove(i);
    let gone = key(s[i]);
    assert forall|a: int, b: int| 0 <= a < t.len() && 0 <= b < t.len() && a != b
        implies key(#[trigger] t[a]) != key(#[trigger] t[b]) by {
        let a0 = if a < i { a } else { a + 1 };
        let b0 = if b < i { b } else { b + 1 };
        assert(t[a] == s[a0]);
        assert(t[b] == s[b0]);
    }
    assert forall|k: K| keys_of(t, key).contains(k) <==> keys_of(s, key).remove(gone).contains(k) by {
        if keys_of(s, key).contains(k) && k != gone {
            let j = choose|j: int| 0 <= j < s.len() && key(#[trigger] s[j]) == k;
            if j < i {
                assert(t[j] == s[j]);
            } else {
                assert(t[j - 1] == s[j]);
            }
        }
        if keys_of(t, key).contains(k) {
            let j = choose|j: int| 0 <= j < t.len() && key(#[trigger] t[j]) == k;
            let j0 = if j < i { j } else { j + 1 };
            assert(t[j] == s[j0]);
            assert(key(s[j0]) != key(s[i]));
        }
    }
    assert(keys_of(t, key) =~= keys_of(s, key).remove(gone));
    assert forall|k: K| k != gone implies entry_of(t, key, k) == entry_of(s, key, k) by {
        if keys_of(s, key).contains(k) {
            let j = choose|j: int| 0 <= j < s.len() && key(#[trigger] s[j]) == k;
            let j1 = if j < i { j } else { j - 1 };
            assert(t[j1] == s[j]);
            lemma_entry_at(s, key, j);
            lemma_entry_at(t, key, j1);
        }
    }
}

/// Adding an entry whose key a table with unique keys does not hold keeps
/// the keys unique, adds its key, makes that key find it, and leaves every
/// other key finding what it found.
pub proof fn lemma_push_new<E, K>(s: Seq<E>, key: spec_fn(E) -> K, e: E)
    requires
        keys_unique(s, key),
        !keys_of(s, key).contains(key(e)),
    ensures
        keys_unique(s.push(e), key),
        keys_of(s.push(e), key) == keys_of(s, key).insert(key(e)),
        entry_of(s.push(e), key, key(e)) == Some(e),
        forall|k: K| k != key(e) ==> entry_of(s.push(e), key, k) == entry_of(s, key, k),
{
    let t = s.push(e);
    let n = s.len() as int;
    assert forall|a: int, b: int| 0 <= a < t.len() && 0 <= b < t.len() && a != b
        implies key(#[trigger] t[a]) != key(#[trigger] t[b]) by {
        if a == n {
            assert(t[b] == s[b]);
            assert(keys_of(s, key).contains(key(s[b])));
        } else if b == n {
            assert(t[a] == s[a]);
            assert(keys_of(s, key).contains(key(s[a])));
        } else {
            assert(t[a] == s[a]);
            assert(t[b] == s[b]);
        }
    }
    assert forall|k: K| keys_of(t, key).contains(k) <==> keys_of(s, key).insert(key(e)).contains(k) by {
        if keys_of(s, key).contains(k) {
            let j = choose|j: int| 0 <= j < s.len() && key(#[trigger] s[j]) == k;
            assert(t[j] == s[j]);
        }
        if k == key(e) {
            assert(t[n] == e);
        }
        if keys_of(t, key).contains(k) {
            let j = choose|j: int| 0 <= j < t.len() && key(#[trigger] t[j]) == k;
            if j < n {
                assert(t[j] == s[j]);
            }
        }
    }
    assert(keys_of(t, key) =~= keys_of(s, key).insert(key(e)));
    assert(t[n] == e);
    lemma_entry_at(t, key, n);
    assert forall|k: K| k != key(e) implies entry_of(t, key, k) == entry_of(s, key, k) by {
        if keys_of(s, key).contains(k) {
            let j = choose|j: int| 0 <= j < s.len() && key(#[trigger] s[j]) == k;
            assert(t[j] == s[j]);
            lemma_entry_at(s, key, j);
            lemma_entry_at(t, key, j);
        }
    }
}

} // verus!
