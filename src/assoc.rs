//! String-keyed association lists: a vector of keys beside a vector of
//! values, read as a finite map from key text to the value's view.
use vstd::prelude::*;

verus! {

/// No two keys hold the same text.
pub open spec fn keys_unique(keys: Seq<String>) -> bool {
    forall|i: int, j: int|
        0 <= i < keys.len() && 0 <= j < keys.len() && i != j ==> #[trigger] keys[i]@
            != #[trigger] keys[j]@
}

/// Some key holds the text `k`.
pub open spec fn has_key(keys: Seq<String>, k: Seq<char>) -> bool {
    exists|i: int| 0 <= i < keys.len() && #[trigger] keys[i]@ == k
}

/// The position of the key that holds `k`, where there is one.
pub open spec fn key_pos(keys: Seq<String>, k: Seq<char>) -> int {
    choose|i: int| 0 <= i < keys.len() && #[trigger] keys[i]@ == k
}

/// The map that the two vectors stand for.
pub open spec fn assoc_map<V: View>(keys: Seq<String>, vals: Seq<V>) -> Map<Seq<char>, V::V> {
    Map::new(|k: Seq<char>| has_key(keys, k), |k: Seq<char>| vals[key_pos(keys, k)]@)
}

pub proof fn lemma_assoc_at<V: View>(keys: Seq<String>, vals: Seq<V>, i: int)
    requires
        keys_unique(keys),
        keys.len() == vals.len(),
        0 <= i < keys.len(),
    ensures
        assoc_map(keys, vals).contains_key(keys[i]@),
        assoc_map(keys, vals)[keys[i]@] == vals[i]@,
        key_pos(keys, keys[i]@) == i,
{
    assert(has_key(keys, keys[i]@));
    let j = key_pos(keys, keys[i]@);
    assert(keys[j]@ == keys[i]@);
}

pub proof fn lemma_assoc_update<V: View>(keys: Seq<String>, vals: Seq<V>, i: int, v: V)
    requires
        keys_unique(keys),
        keys.len() == vals.len(),
        0 <= i < keys.len(),
    ensures
        assoc_map(keys, vals.update(i, v)) == assoc_map(keys, vals).insert(keys[i]@, v@),
{
    let a = assoc_map(keys, vals.update(i, v));
    let b = assoc_map(keys, vals).insert(keys[i]@, v@);
    assert forall|k: Seq<char>| #[trigger] a.contains_key(k) == b.contains_key(k) by {}
    assert forall|k: Seq<char>| a.contains_key(k) implies #[trigger] a[k] == b[k] by {
        let j = key_pos(keys, k);
        assert(keys[j]@ == k);
        if j != i {
            assert(keys[j]@ != keys[i]@);
        }
    }
    assert(a =~= b);
}

pub proof fn lemma_assoc_push<V: View>(keys: Seq<String>, vals: Seq<V>, k: String, v: V)
    requires
        keys_unique(keys),
        keys.len() == vals.len(),
        !has_key(keys, k@),
    ensures
        keys_unique(keys.push(k)),
        assoc_map(keys.push(k), vals.push(v)) == assoc_map(keys, vals).insert(k@, v@),
{
    let nk = keys.push(k);
    let nv = vals.push(v);
    assert forall|i: int, j: int|
        0 <= i < nk.len() && 0 <= j < nk.len() && i != j implies #[trigger] nk[i]@
        != #[trigger] nk[j]@ by {
        if i < keys.len() && j < keys.len() {
            assert(nk[i] == keys[i] && nk[j] == keys[j]);
        } else if i < keys.len() {
            assert(nk[i] == keys[i]);
        } else {
            assert(nk[j] == keys[j]);
        }
    }
    let a = assoc_map(nk, nv);
    let b = assoc_map(keys, vals).insert(k@, v@);
    assert forall|q: Seq<char>| #[trigger] a.contains_key(q) == b.contains_key(q) by {
        if has_key(keys, q) {
            let j = key_pos(keys, q);
            assert(nk[j] == keys[j]);
        }
        if q == k@ {
            assert(nk[keys.len() as int] == k);
        }
        if has_key(nk, q) && q != k@ {
            let j = key_pos(nk, q);
            assert(j < keys.len());
            assert(nk[j] == keys[j]);
        }
    }
    assert forall|q: Seq<char>| a.contains_key(q) implies #[trigger] a[q] == b[q] by {
        let j = key_pos(nk, q);
        assert(nk[j]@ == q);
        if q == k@ {
            assert(nk[keys.len() as int] == k);
            assert(j == keys.len());
        } else {
            assert(j < keys.len());
            assert(nk[j] == keys[j]);
            lemma_assoc_at(keys, vals, j);
        }
    }
    assert(a =~= b);
}

/// The position of the key that holds the text of `k`.
pub fn find_key(keys: &Vec<String>, k: &String) -> (r: Option<usize>)
    ensures
        match r {
            Some(i) => i < keys@.len() && keys@[i as int]@ == k@,
            None => !has_key(keys@, k@),
        },
{
    let mut i: usize = 0;
    while i < keys.len()
        invariant
            i <= keys@.len(),
            forall|j: int| 0 <= j < i ==> #[trigger] keys@[j]@ != k@,
        decreases keys@.len() - i,
    {
        if keys[i] == *k {
            return Some(i);
        }
        i = i + 1;
    }
    None
}

/// Whether no two keys hold the same text.
pub fn all_unique(keys: &Vec<String>) -> (r: bool)
    ensures
        r == keys_unique(keys@),
{
    let mut i: usize = 0;
    while i < keys.len()
        invariant
            i <= keys@.len(),
            forall|a: int, b: int|
                0 <= a < i && 0 <= b < keys@.len() && a != b ==> #[trigger] keys@[a]@
                    != #[trigger] keys@[b]@,
        decreases keys@.len() - i,
    {
        let mut j: usize = 0;
        while j < keys.len()
            invariant
                i < keys@.len(),
                j <= keys@.len(),
                forall|a: int, b: int|
                    0 <= a < i && 0 <= b < keys@.len() && a != b ==> #[trigger] keys@[a]@
                        != #[trigger] keys@[b]@,
                forall|b: int| 0 <= b < j && b != i ==> keys@[i as int]@ != #[trigger] keys@[b]@,
            decreases keys@.len() - j,
        {
            if j != i && keys[i] == keys[j] {
                assert(keys@[i as int]@ == keys@[j as int]@);
                return false;
            }
            j = j + 1;
        }
        i = i + 1;
    }
    true
}

/// Whether some key holds the text of `k`.
pub fn contains_key(keys: &Vec<String>, k: &String) -> (r: bool)
    ensures
        r == has_key(keys@, k@),
{
    match find_key(keys, k) {
        Some(i) => {
            assert(keys@[i as int]@ == k@);
            true
        },
        None => false,
    }
}

} // verus!
