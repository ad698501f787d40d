//! Lists of named entries with distinct names, viewed as maps from name to value.
use vstd::prelude::*;
use crate::text::str_eq;

verus! {

/// No two entries share a name.
pub open spec fn distinct<V>(s: Seq<(String, V)>) -> bool {
    forall|i: int, j: int| 0 <= i < j < s.len() ==> #[trigger] s[i].0@ != #[trigger] s[j].0@
}

/// Some entry has this name.
pub open spec fn has_name<V>(s: Seq<(String, V)>, n: Seq<char>) -> bool {
    exists|i: int| 0 <= i < s.len() && #[trigger] s[i].0@ == n
}

/// The entries as a map from name to value.
pub open spec fn to_map<V>(s: Seq<(String, V)>) -> Map<Seq<char>, V> {
    Map::new(
        |n: Seq<char>| has_name(s, n),
        |n: Seq<char>| s[choose|i: int| 0 <= i < s.len() && #[trigger] s[i].0@ == n].1,
    )
}

/// In a list with distinct names, the map gives each entry's value under its name.
pub proof fn lemma_to_map_at<V>(s: Seq<(String, V)>, i: int)
    requires
        distinct(s),
        0 <= i < s.len(),
    ensures
        to_map(s).contains_key(s[i].0@),
        to_map(s)[s[i].0@] == s[i].1,
{
    assert(has_name(s, s[i].0@));
    let j = choose|j: int| 0 <= j < s.len() && #[trigger] s[j].0@ == s[i].0@;
    if j != i {
        if j < i {
            assert(s[j].0@ != s[i].0@);
        } else {
            assert(s[i].0@ != s[j].0@);
        }
    }
}

/// Adding an entry under a new name adds it to the map.
pub proof fn lemma_to_map_push<V>(s: Seq<(String, V)>, k: String, v: V)
    requires
        distinct(s),
        !has_name(s, k@),
    ensures
        distinct(s.push((k, v))),
        to_map(s.push((k, v))) == to_map(s).insert(k@, v),
{
    let t = s.push((k, v));
    assert forall|i: int, j: int| 0 <= i < j < t.len() implies #[trigger] t[i].0@ != #[trigger] t[j].0@ by {
        if j == s.len() {
            if t[i].0@ == k@ {
                assert(s[i].0@ == k@);
            }
        }
    }
    assert forall|n: Seq<char>| #[trigger] has_name(t, n) <==> (has_name(s, n) || n == k@) by {
        if has_name(t, n) {
            let i = choose|i: int| 0 <= i < t.len() && #[trigger] t[i].0@ == n;
            if i < s.len() {
                assert(s[i].0@ == n);
            }
        }
        if has_name(s, n) {
            let i = choose|i: int| 0 <= i < s.len() && #[trigger] s[i].0@ == n;
            assert(t[i].0@ == n);
        }
        if n == k@ {
            assert(t[s.len() as int].0@ == n);
        }
    }
    assert forall|n: Seq<char>| #[trigger] to_map(t).contains_key(n) implies to_map(t)[n] == to_map(s).insert(k@, v)[n] by {
        if n == k@ {
            lemma_to_map_at(t, s.len() as int);
        } else {
            let i = choose|i: int| 0 <= i < s.len() && #[trigger] s[i].0@ == n;
            lemma_to_map_at(s, i);
            assert(t[i] == s[i]);
            lemma_to_map_at(t, i);
        }
    }
    assert(to_map(t) =~= to_map(s).insert(k@, v));
}

/// Replacing the entry at position `i` by one of the same name updates the map there.
pub proof fn lemma_to_map_set<V>(s: Seq<(String, V)>, i: int, k: String, v: V)
    requires
        distinct(s),
        0 <= i < s.len(),
        k@ == s[i].0@,
    ensures
        distinct(s.update(i, (k, v))),
        to_map(s.update(i, (k, v))) == to_map(s).insert(k@, v),
{
    let t = s.update(i, (k, v));
    assert forall|a: int, b: int| 0 <= a < b < t.len() implies #[trigger] t[a].0@ != #[trigger] t[b].0@ by {
        assert(t[a].0@ == s[a].0@ && t[b].0@ == s[b].0@);
    }
    assert forall|n: Seq<char>| #[trigger] has_name(t, n) <==> has_name(s, n) by {
        if has_name(t, n) {
            let j = choose|j: int| 0 <= j < t.len() && #[trigger] t[j].0@ == n;
            assert(s[j].0@ == n);
        }
        if has_name(s, n) {
            let j = choose|j: int| 0 <= j < s.len() && #[trigger] s[j].0@ == n;
            assert(t[j].0@ == n);
        }
    }
    assert forall|n: Seq<char>| #[trigger] to_map(t).contains_key(n) implies to_map(t)[n] == to_map(s).insert(k@, v)[n] by {
        let j = choose|j: int| 0 <= j < t.len() && #[trigger] t[j].0@ == n;
        lemma_to_map_at(t, j);
        if j != i {
            assert(t[j] == s[j]);
            lemma_to_map_at(s, j);
        }
    }
    assert(to_map(t) =~= to_map(s).insert(k@, v));
}

/// Dropping the entry at position `i` drops its name from the map.
pub proof fn lemma_to_map_remove<V>(s: Seq<(String, V)>, i: int)
    requires
        distinct(s),
        0 <= i < s.len(),
    ensures
        distinct(s.remove(i)),
        to_map(s.remove(i)) == to_map(s).remove(s[i].0@),
{
    let t = s.remove(i);
    assert forall|a: int, b: int| 0 <= a < b < t.len() implies #[trigger] t[a].0@ != #[trigger] t[b].0@ by {
        let a2 = if a < i { a } else { a + 1 };
        let b2 = if b < i { b } else { b + 1 };
        assert(t[a] == s[a2] && t[b] == s[b2]);
    }
    assert forall|n: Seq<char>| #[trigger] has_name(t, n) <==> (has_name(s, n) && n != s[i].0@) by {
        if has_name(t, n) {
            let j = choose|j: int| 0 <= j < t.len() && #[trigger] t[j].0@ == n;
            let j2 = if j < i { j } else { j + 1 };
            assert(t[j] == s[j2]);
            assert(s[j2].0@ == n);
        }
        if has_name(s, n) && n != s[i].0@ {
            let j = choose|j: int| 0 <= j < s.len() && #[trigger] s[j].0@ == n;
            if j < i {
                assert(t[j] == s[j]);
                assert(t[j].0@ == n);
            } else {
                assert(t[j - 1] == s[j]);
                assert(t[j - 1].0@ == n);
            }
        }
    }
    assert forall|n: Seq<char>| #[trigger] to_map(t).contains_key(n) implies to_map(t)[n] == to_map(s).remove(s[i].0@)[n] by {
        let j = choose|j: int| 0 <= j < t.len() && #[trigger] t[j].0@ == n;
        lemma_to_map_at(t, j);
        let j2 = if j < i { j } else { j + 1 };
        assert(t[j] == s[j2]);
        lemma_to_map_at(s, j2);
    }
    assert(to_map(t) =~= to_map(s).remove(s[i].0@));
}

/// Sets the value under `k`, adding an entry when the name is new.
pub fn put<V>(s: &mut Vec<(String, V)>, k: String, v: V)
    requires
        distinct(old(s)@),
    ensures
        distinct(final(s)@),
        to_map(final(s)@) == to_map(old(s)@).insert(k@, v),
{
    match find(s, k.as_str()) {
        Some(i) => {
            proof {
                lemma_to_map_set(s@, i as int, k, v);
            }
            s.set(i, (k, v));
        },
        None => {
            proof {
                lemma_to_map_push(s@, k, v);
            }
            s.push((k, v));
        },
    }
}

/// Drops the entry named `k`, if any.
pub fn remove_named<V>(s: &mut Vec<(String, V)>, k: &str)
    requires
        distinct(old(s)@),
    ensures
        distinct(final(s)@),
        to_map(final(s)@) == to_map(old(s)@).remove(k@),
{
    match find(s, k) {
        Some(i) => {
            proof {
                lemma_to_map_remove(s@, i as int);
            }
            s.remove(i);
        },
        None => {
            assert(to_map(s@) =~= to_map(s@).remove(k@));
        },
    }
}

/// Each prefix of a list with distinct names grows its map by one entry.
pub proof fn lemma_to_map_prefix<V>(s: Seq<(String, V)>, i: int)
    requires
        distinct(s),
        0 <= i < s.len(),
    ensures
        distinct(s.subrange(0, i)),
        to_map(s.subrange(0, i + 1)) == to_map(s.subrange(0, i)).insert(s[i].0@, s[i].1),
{
    let p = s.subrange(0, i);
    assert forall|a: int, b: int| 0 <= a < b < p.len() implies #[trigger] p[a].0@ != #[trigger] p[b].0@ by {
        assert(p[a] == s[a] && p[b] == s[b]);
    }
    if has_name(p, s[i].0@) {
        let j = choose|j: int| 0 <= j < p.len() && #[trigger] p[j].0@ == s[i].0@;
        assert(p[j] == s[j]);
    }
    lemma_to_map_push(p, s[i].0, s[i].1);
    assert(s.subrange(0, i + 1) =~= p.push((s[i].0, s[i].1)));
}

/// Position of the entry named `name`.
pub fn find<V>(s: &Vec<(String, V)>, name: &str) -> (r: Option<usize>)
    ensures
        r matches Some(i) ==> i < s@.len() && s@[i as int].0@ == name@,
        r is None ==> !has_name(s@, name@),
{
    let n = s.len();
    let mut i: usize = 0;
    while i < n
        invariant
            n == s@.len(),
            0 <= i <= n,
            forall|k: int| 0 <= k < i ==> #[trigger] s@[k].0@ != name@,
        decreases n - i,
    {
        if str_eq(s[i].0.as_str(), name) {
            return Some(i);
        }
        i = i + 1;
    }
    None
}

} // verus!
