//! Lists of `(name, value)` entries with unique names, read as maps.

use vstd::prelude::*;

verus! {

/// The map that a list of `(name, value)` entries stands for; a later entry wins.
pub open spec fn cache_map<S>(c: Seq<(String, S)>) -> Map<Seq<char>, S>
    decreases c.len(),
{
    if c.len() == 0 {
        Map::empty()
    } else {
        cache_map(c.drop_last()).insert(c.last().0@, c.last().1)
    }
}

/// No name has two entries.
pub open spec fn keys_unique<S>(c: Seq<(String, S)>) -> bool {
    forall|i: int, j: int| 0 <= i < j < c.len() ==> c[i].0@ != c[j].0@
}

pub proof fn lemma_cache_contains<S>(c: Seq<(String, S)>, k: Seq<char>)
    ensures
        cache_map(c).contains_key(k) <==> exists|i: int| 0 <= i < c.len() && c[i].0@ == k,
    decreases c.len(),
{
    if c.len() > 0 {
        let d = c.drop_last();
        lemma_cache_contains(d, k);
        if exists|i: int| 0 <= i < c.len() && c[i].0@ == k {
            let i = choose|i: int| 0 <= i < c.len() && c[i].0@ == k;
            if i < c.len() - 1 {
                assert(d[i] == c[i]);
            }
        }
        if exists|i: int| 0 <= i < d.len() && d[i].0@ == k {
            let i = choose|i: int| 0 <= i < d.len() && d[i].0@ == k;
            assert(c[i] == d[i]);
        }
    }
}

pub proof fn lemma_cache_value<S>(c: Seq<(String, S)>, i: int)
    requires
        keys_unique(c),
        0 <= i < c.len(),
    ensures
        cache_map(c).contains_key(c[i].0@),
        cache_map(c)[c[i].0@] == c[i].1,
    decreases c.len(),
{
    if i < c.len() - 1 {
        let d = c.drop_last();
        assert(d[i] == c[i]);
        assert(keys_unique(d)) by {
            assert forall|a: int, b: int| 0 <= a < b < d.len() implies d[a].0@ != d[b].0@ by {
                assert(d[a] == c[a] && d[b] == c[b]);
            }
        }
        lemma_cache_value(d, i);
        assert(c.last() == c[c.len() - 1]);
    }
}

pub proof fn lemma_cache_remove<S>(c: Seq<(String, S)>, i: int)
    requires
        keys_unique(c),
        0 <= i < c.len(),
    ensures
        keys_unique(c.remove(i)),
        cache_map(c.remove(i)) == cache_map(c).remove(c[i].0@),
    decreases c.len(),
{
    let k = c[i].0@;
    let r = c.remove(i);
    assert(keys_unique(r)) by {
        assert forall|a: int, b: int| 0 <= a < b < r.len() implies r[a].0@ != r[b].0@ by {
            let a2 = if a < i { a } else { a + 1 };
            let b2 = if b < i { b } else { b + 1 };
            assert(r[a] == c[a2]);
            assert(r[b] == c[b2]);
        }
    }
    let d = c.drop_last();
    assert(keys_unique(d)) by {
        assert forall|a: int, b: int| 0 <= a < b < d.len() implies d[a].0@ != d[b].0@ by {
            assert(d[a] == c[a] && d[b] == c[b]);
        }
    }
    if i == c.len() - 1 {
        assert(r =~= d);
        lemma_cache_contains(d, k);
        assert forall|j: int| 0 <= j < d.len() implies d[j].0@ != k by {
            assert(d[j] == c[j]);
        }
        assert(cache_map(c).remove(k) =~= cache_map(d));
    } else {
        lemma_cache_remove(d, i);
        assert(r.drop_last() =~= d.remove(i));
        assert(r.last() == c.last());
        assert(c.last() == c[c.len() - 1]);
        assert(c.last().0@ != k);
        assert(cache_map(r) =~= cache_map(c).remove(k));
    }
}

/// The index of the entry named `k`, if there is one.
pub fn position<S>(c: &Vec<(String, S)>, k: &String) -> (r: Option<usize>)
    requires
        keys_unique(c@),
    ensures
        match r {
            Some(i) => {
                &&& i < c@.len()
                &&& c@[i as int].0@ == k@
                &&& cache_map(c@).contains_key(k@)
                &&& cache_map(c@)[k@] == c@[i as int].1
            },
            None => !cache_map(c@).contains_key(k@),
        },
{
    let mut i: usize = 0;
    while i < c.len()
        invariant
            0 <= i <= c@.len(),
            keys_unique(c@),
            forall|j: int| 0 <= j < i ==> c@[j].0@ != k@,
        decreases c@.len() - i,
    {
        if c[i].0 == *k {
            proof {
                lemma_cache_value(c@, i as int);
            }
            return Some(i);
        }
        i = i + 1;
    }
    proof {
        lemma_cache_contains(c@, k@);
    }
    None
}

/// Sets the value named `k`, replacing the entry that held it; returns the value replaced.
pub fn upsert<S>(c: &mut Vec<(String, S)>, k: String, v: S) -> (old_value: Option<S>)
    requires
        keys_unique(old(c)@),
    ensures
        keys_unique(final(c)@),
        cache_map(final(c)@) == cache_map(old(c)@).insert(k@, v),
        old_value == (if cache_map(old(c)@).contains_key(k@) {
            Some(cache_map(old(c)@)[k@])
        } else {
            None
        }),
{
    let old_value = match position(c, &k) {
        Some(i) => {
            proof {
                lemma_cache_remove(c@, i as int);
            }
            let (_, s) = c.remove(i);
            Some(s)
        },
        None => None,
    };
    let ghost before = c@;
    proof {
        lemma_cache_contains(before, k@);
    }
    c.push((k, v));
    proof {
        assert(c@.drop_last() =~= before);
        assert forall|a: int, b: int| 0 <= a < b < c@.len() implies c@[a].0@ != c@[b].0@ by {
            if b == c@.len() - 1 {
                assert(c@[a] == before[a]);
            } else {
                assert(c@[a] == before[a] && c@[b] == before[b]);
            }
        }
    }
    old_value
}

/// Removes the entry named `k`; returns its value.
pub fn take<S>(c: &mut Vec<(String, S)>, k: &String) -> (r: Option<S>)
    requires
        keys_unique(old(c)@),
    ensures
        keys_unique(final(c)@),
        cache_map(final(c)@) == cache_map(old(c)@).remove(k@),
        r == (if cache_map(old(c)@).contains_key(k@) {
            Some(cache_map(old(c)@)[k@])
        } else {
            None
        }),
{
    match position(c, k) {
        Some(i) => {
            proof {
                lemma_cache_remove(c@, i as int);
            }
            let (_, s) = c.remove(i);
            Some(s)
        },
        None => {
            assert(cache_map(c@).remove(k@) =~= cache_map(c@));
            None
        },
    }
}

} // verus!
