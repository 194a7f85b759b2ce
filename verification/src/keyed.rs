//! Ordered association lists with string keys: the shape shared by manifest
//! tables and the command registry.  Lookup is first match; a well-formed
//! list has distinct keys, so the first match is the only one.

use vstd::prelude::*;
use vstd::string::StrSliceExecFns;

verus! {

/// First-match lookup in an ordered key/value list.
pub open spec fn spec_lookup<T>(entries: Seq<(String, T)>, key: Seq<char>) -> Option<T>
    decreases entries.len(),
{
    if entries.len() == 0 {
        None
    } else if entries[0].0@ == key {
        Some(entries[0].1)
    } else {
        spec_lookup(entries.drop_first(), key)
    }
}

/// Whether a key occurs in an ordered key/value list.
pub open spec fn spec_has_key<T>(entries: Seq<(String, T)>, key: Seq<char>) -> bool {
    spec_lookup(entries, key) is Some
}

/// All keys in the list are distinct.
pub open spec fn distinct_keys<T>(entries: Seq<(String, T)>) -> bool {
    forall|i: int, j: int|
        0 <= i < j < entries.len() ==> entries[i].0@ != entries[j].0@
}

/// Character-by-character equality of two string slices.
pub fn str_eq(a: &str, b: &str) -> (r: bool)
    ensures
        r == (a@ == b@),
{
    let alen = a.unicode_len();
    let blen = b.unicode_len();
    if alen != blen {
        return false;
    }
    let mut i: usize = 0;
    while i < alen
        invariant
            i <= alen,
            alen == a@.len(),
            blen == b@.len(),
            alen == blen,
            forall|j: int| 0 <= j < i ==> a@[j] == b@[j],
        decreases alen - i,
    {
        if a.get_char(i) != b.get_char(i) {
            return false;
        }
        i += 1;
    }
    proof {
        assert(a@ =~= b@);
    }
    true
}

/// Skipping entries whose keys all miss leaves the lookup unchanged.
pub proof fn lemma_lookup_skip<T>(entries: Seq<(String, T)>, key: Seq<char>, k: int)
    requires
        0 <= k <= entries.len(),
        forall|j: int| 0 <= j < k ==> entries[j].0@ != key,
    ensures
        spec_lookup(entries, key) == spec_lookup(entries.skip(k), key),
    decreases k,
{
    if k > 0 {
        assert(entries[0].0@ != key);
        lemma_lookup_skip(entries.drop_first(), key, k - 1);
        assert(entries.drop_first().skip(k - 1) =~= entries.skip(k));
    } else {
        assert(entries.skip(0) =~= entries);
    }
}

/// A lookup that hits index `i`, all earlier keys missing, returns that entry.
pub proof fn lemma_lookup_at<T>(entries: Seq<(String, T)>, key: Seq<char>, i: int)
    requires
        0 <= i < entries.len(),
        forall|j: int| 0 <= j < i ==> entries[j].0@ != key,
        entries[i].0@ == key,
    ensures
        spec_lookup(entries, key) == Some(entries[i].1),
{
    lemma_lookup_skip(entries, key, i);
    assert(entries.skip(i)[0] == entries[i]);
}

/// A lookup over entries whose keys all miss returns nothing.
pub proof fn lemma_lookup_none<T>(entries: Seq<(String, T)>, key: Seq<char>)
    requires
        forall|j: int| 0 <= j < entries.len() ==> entries[j].0@ != key,
    ensures
        spec_lookup(entries, key) is None,
{
    lemma_lookup_skip(entries, key, entries.len() as int);
    assert(entries.skip(entries.len() as int) =~= Seq::<(String, T)>::empty());
}

/// Replacing the entry at `i` by one with the same key leaves every other
/// key's lookup unchanged.
pub proof fn lemma_lookup_update_other<T>(
    entries: Seq<(String, T)>,
    i: int,
    p: (String, T),
    k: Seq<char>,
)
    requires
        0 <= i < entries.len(),
        p.0@ == entries[i].0@,
        k != p.0@,
    ensures
        spec_lookup(entries.update(i, p), k) == spec_lookup(entries, k),
    decreases entries.len(),
{
    let upd = entries.update(i, p);
    if i == 0 {
        assert(upd[0].0@ == entries[0].0@);
        assert(upd[0].0@ != k);
        assert(upd.drop_first() =~= entries.drop_first());
    } else {
        assert(upd[0] == entries[0]);
        if entries[0].0@ == k {
        } else {
            assert(upd.drop_first() =~= entries.drop_first().update(i - 1, p));
            lemma_lookup_update_other(entries.drop_first(), i - 1, p, k);
        }
    }
}

/// Appending an entry: it is found when its key was absent; every other
/// lookup is unchanged.
pub proof fn lemma_lookup_push<T>(entries: Seq<(String, T)>, p: (String, T), k: Seq<char>)
    ensures
        spec_lookup(entries.push(p), k) == if spec_has_key(entries, k) {
            spec_lookup(entries, k)
        } else if p.0@ == k {
            Some(p.1)
        } else {
            None::<T>
        },
    decreases entries.len(),
{
    let pushed = entries.push(p);
    if entries.len() == 0 {
        assert(pushed[0] == p);
        assert(pushed.drop_first() =~= Seq::<(String, T)>::empty());
    } else {
        assert(pushed[0] == entries[0]);
        if entries[0].0@ == k {
        } else {
            assert(pushed.drop_first() =~= entries.drop_first().push(p));
            lemma_lookup_push(entries.drop_first(), p, k);
        }
    }
}

/// Removing the entry at `i` leaves every other key's lookup unchanged.
pub proof fn lemma_lookup_remove_other<T>(entries: Seq<(String, T)>, i: int, k: Seq<char>)
    requires
        0 <= i < entries.len(),
        k != entries[i].0@,
    ensures
        spec_lookup(entries.remove(i), k) == spec_lookup(entries, k),
    decreases entries.len(),
{
    let rem = entries.remove(i);
    if i == 0 {
        assert(rem =~= entries.drop_first());
    } else {
        assert(rem[0] == entries[0]);
        if entries[0].0@ == k {
        } else {
            assert(rem.drop_first() =~= entries.drop_first().remove(i - 1));
            lemma_lookup_remove_other(entries.drop_first(), i - 1, k);
        }
    }
}

/// With distinct keys, removing the entry that carries a key removes the key.
pub proof fn lemma_lookup_remove_hit<T>(entries: Seq<(String, T)>, i: int)
    requires
        distinct_keys(entries),
        0 <= i < entries.len(),
    ensures
        spec_lookup(entries.remove(i), entries[i].0@) is None,
{
    let k = entries[i].0@;
    let rem = entries.remove(i);
    assert forall|j: int| 0 <= j < rem.len() implies rem[j].0@ != k by {
        if j < i {
            assert(rem[j] == entries[j]);
        } else {
            assert(rem[j] == entries[j + 1]);
        }
    }
    lemma_lookup_none(rem, k);
}

/// Decide whether all keys in the list are distinct: the executable mirror
/// of `distinct_keys`, for callers that receive a list from outside and must
/// check it before editing.
pub fn check_distinct<T>(entries: &Vec<(String, T)>) -> (r: bool)
    ensures
        r == distinct_keys(entries@),
{
    let n = entries.len();
    let mut i: usize = 0;
    while i < n
        invariant
            i <= n,
            n == entries@.len(),
            forall|x: int, y: int|
                0 <= x < y < n && x < i ==> entries@[x].0@ != entries@[y].0@,
        decreases n - i,
    {
        let mut j: usize = i + 1;
        while j < n
            invariant
                i < j <= n,
                i < n,
                n == entries@.len(),
                forall|x: int, y: int|
                    0 <= x < y < n && x < i ==> entries@[x].0@ != entries@[y].0@,
                forall|y: int| i < y < j ==> entries@[i as int].0@ != entries@[y].0@,
            decreases n - j,
        {
            if str_eq(entries[i].0.as_str(), entries[j].0.as_str()) {
                proof {
                    assert(entries@[i as int].0@ == entries@[j as int].0@);
                }
                return false;
            }
            j += 1;
        }
        i += 1;
    }
    true
}

/// Index of the entry a lookup returns.
pub fn find_key<T>(entries: &Vec<(String, T)>, key: &str) -> (r: Option<usize>)
    ensures
        match r {
            Some(i) => {
                &&& i < entries@.len()
                &&& entries@[i as int].0@ == key@
                &&& forall|j: int| 0 <= j < i ==> entries@[j].0@ != key@
                &&& spec_lookup(entries@, key@) == Some(entries@[i as int].1)
            },
            None => {
                &&& spec_lookup(entries@, key@) is None
                &&& forall|j: int| 0 <= j < entries@.len() ==> entries@[j].0@ != key@
            },
        },
{
    let n = entries.len();
    let mut i: usize = 0;
    while i < n
        invariant
            i <= n,
            n == entries@.len(),
            forall|j: int| 0 <= j < i ==> entries@[j].0@ != key@,
        decreases n - i,
    {
        if str_eq(entries[i].0.as_str(), key) {
            proof {
                lemma_lookup_at(entries@, key@, i as int);
            }
            return Some(i);
        }
        i += 1;
    }
    proof {
        lemma_lookup_none(entries@, key@);
    }
    None
}

} // verus!
