//! Small string-keyed maps kept as lists of pairs, with map semantics:
//! inserting an existing key replaces its value in place.
use vstd::prelude::*;
use crate::text::str_eq;

verus! {

/// The index of the first pair whose key is `k`, or -1.
pub open spec fn assoc_index(m: Seq<(Seq<char>, Seq<char>)>, k: Seq<char>) -> int
    decreases m.len(),
{
    if m.len() == 0 {
        -1
    } else if m[0].0 == k {
        0
    } else {
        let i = assoc_index(m.drop_first(), k);
        if i < 0 {
            -1
        } else {
            i + 1
        }
    }
}

/// The index found is in range and holds the key; none before it does.
pub proof fn lemma_assoc_index(m: Seq<(Seq<char>, Seq<char>)>, k: Seq<char>)
    ensures
        -1 <= assoc_index(m, k) < m.len(),
        assoc_index(m, k) >= 0 ==> m[assoc_index(m, k)].0 == k,
        forall|j: int| 0 <= j < m.len() && (assoc_index(m, k) < 0 || j < assoc_index(m, k)) ==> m[j].0 != k,
    decreases m.len(),
{
    if m.len() > 0 {
        lemma_assoc_index(m.drop_first(), k);
        assert forall|j: int| 0 < j < m.len() implies m[j] == m.drop_first()[j - 1] by {}
    }
}

/// The value under `k`, if any.
pub open spec fn assoc_get(m: Seq<(Seq<char>, Seq<char>)>, k: Seq<char>) -> Option<Seq<char>> {
    let i = assoc_index(m, k);
    if i >= 0 {
        Some(m[i].1)
    } else {
        None
    }
}

/// `m` with `k` bound to `v`: replaced in place if present, else added at the end.
pub open spec fn assoc_insert(m: Seq<(Seq<char>, Seq<char>)>, k: Seq<char>, v: Seq<char>) -> Seq<(Seq<char>, Seq<char>)> {
    let i = assoc_index(m, k);
    if i >= 0 {
        m.update(i, (k, v))
    } else {
        m.push((k, v))
    }
}

/// The pairs of a vector of string pairs, as character sequences.
pub open spec fn pairs_view(v: Seq<(String, String)>) -> Seq<(Seq<char>, Seq<char>)> {
    v.map_values(|p: (String, String)| (p.0@, p.1@))
}

/// The index of the first pair whose key is `k`.
pub fn find_key(m: &Vec<(String, String)>, k: &str) -> (r: Option<usize>)
    ensures
        match r {
            Some(i) => assoc_index(pairs_view(m@), k@) == i,
            None => assoc_index(pairs_view(m@), k@) == -1,
        },
{
    proof {
        lemma_assoc_index(pairs_view(m@), k@);
    }
    let mut i: usize = 0;
    while i < m.len()
        invariant
            i <= m@.len(),
            -1 <= assoc_index(pairs_view(m@), k@) < m@.len(),
            assoc_index(pairs_view(m@), k@) >= 0 ==> pairs_view(m@)[assoc_index(pairs_view(m@), k@)].0 == k@,
            forall|j: int| 0 <= j < m@.len() && (assoc_index(pairs_view(m@), k@) < 0 || j < assoc_index(pairs_view(m@), k@)) ==> pairs_view(m@)[j].0 != k@,
            forall|j: int| 0 <= j < i ==> pairs_view(m@)[j].0 != k@,
        decreases m@.len() - i,
    {
        assert(pairs_view(m@)[i as int].0 == m@[i as int].0@);
        if str_eq(m[i].0.as_str(), k) {
            return Some(i);
        }
        i = i + 1;
    }
    None
}

/// The value under `k`, if any.
pub fn get_value<'a>(m: &'a Vec<(String, String)>, k: &str) -> (r: Option<&'a String>)
    ensures
        match r {
            Some(v) => assoc_get(pairs_view(m@), k@) == Some(v@),
            None => assoc_get(pairs_view(m@), k@) is None,
        },
{
    proof {
        lemma_assoc_index(pairs_view(m@), k@);
    }
    match find_key(m, k) {
        Some(i) => {
            assert(pairs_view(m@)[i as int].1 == m@[i as int].1@);
            Some(&m[i].1)
        },
        None => None,
    }
}

/// Binds `k` to `v` in `m`.
pub fn insert(m: &mut Vec<(String, String)>, k: String, v: String)
    ensures
        pairs_view(final(m)@) == assoc_insert(pairs_view(old(m)@), k@, v@),
{
    proof {
        lemma_assoc_index(pairs_view(old(m)@), k@);
    }
    match find_key(m, k.as_str()) {
        Some(i) => {
            let ghost kv = k@;
            let ghost vv = v@;
            m.set(i, (k, v));
            assert(pairs_view(m@) =~= assoc_insert(pairs_view(old(m)@), kv, vv));
        },
        None => {
            let ghost kv = k@;
            let ghost vv = v@;
            m.push((k, v));
            assert(pairs_view(m@) =~= assoc_insert(pairs_view(old(m)@), kv, vv));
        },
    }
}

} // verus!
