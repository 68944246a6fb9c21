//! Insertion-ordered maps keyed by text. A lookup finds the first entry with
//! the key; an insert replaces that entry's value or appends a new entry, so
//! keys stay unique when entries only come in through `insert`.
use crate::text::{chars_eq, chars_of};
use vstd::prelude::*;

verus! {

/// `k` is a key of `keys`.
pub open spec fn has_key(keys: Seq<Seq<char>>, k: Seq<char>) -> bool {
    exists|i: int| 0 <= i < keys.len() && keys[i] == k
}

/// `i` is the first position of `k` in `keys`.
pub open spec fn is_first(keys: Seq<Seq<char>>, k: Seq<char>, i: int) -> bool {
    &&& 0 <= i < keys.len()
    &&& keys[i] == k
    &&& forall|j: int| 0 <= j < i ==> keys[j] != k
}

/// The first position of `k` in `keys` (meaningful when `has_key`).
pub open spec fn first_index(keys: Seq<Seq<char>>, k: Seq<char>) -> int {
    choose|i: int| is_first(keys, k, i)
}

/// No key occurs twice.
pub open spec fn keys_unique(keys: Seq<Seq<char>>) -> bool {
    forall|i: int, j: int| 0 <= i < keys.len() && 0 <= j < keys.len() && i != j ==> keys[i] != keys[j]
}

/// The keys of a sequence of pairs.
pub open spec fn keys_of<V>(s: Seq<(Seq<char>, V)>) -> Seq<Seq<char>> {
    Seq::new(s.len(), |i: int| s[i].0)
}

/// The value stored under `k`.
pub open spec fn assoc_get<V>(s: Seq<(Seq<char>, V)>, k: Seq<char>) -> Option<V> {
    if has_key(keys_of(s), k) {
        Some(s[first_index(keys_of(s), k)].1)
    } else {
        None
    }
}

/// `s` with `k` mapped to `v`: the first entry for `k` replaced, or a new
/// entry appended.
pub open spec fn assoc_insert<V>(s: Seq<(Seq<char>, V)>, k: Seq<char>, v: V) -> Seq<(Seq<char>, V)> {
    if has_key(keys_of(s), k) {
        s.update(first_index(keys_of(s), k), (k, v))
    } else {
        s.push((k, v))
    }
}

/// Every position that is first for a key is the chosen one.
pub proof fn lemma_first_unique(keys: Seq<Seq<char>>, k: Seq<char>, i: int)
    requires
        is_first(keys, k, i),
    ensures
        has_key(keys, k),
        first_index(keys, k) == i,
{
    let j = first_index(keys, k);
    assert(is_first(keys, k, j));
    if j < i {
        assert(keys[j] != k);
    }
    if i < j {
        assert(keys[i] != k);
    }
}

/// A key that occurs has a first position.
pub proof fn lemma_has_first(keys: Seq<Seq<char>>, k: Seq<char>)
    requires
        has_key(keys, k),
    ensures
        is_first(keys, k, first_index(keys, k)),
    decreases keys.len(),
{
    if keys.last() == k && !has_key(keys.drop_last(), k) {
        let i = keys.len() - 1;
        assert forall|j: int| 0 <= j < i implies keys[j] != k by {
            if keys[j] == k {
                assert(keys.drop_last()[j] == k);
            }
        }
        lemma_first_unique(keys, k, i);
    } else {
        let d = keys.drop_last();
        assert(has_key(d, k)) by {
            let w = choose|w: int| 0 <= w < keys.len() && keys[w] == k;
            if w == keys.len() - 1 {
            } else {
                assert(d[w] == k);
            }
        }
        lemma_has_first(d, k);
        let i = first_index(d, k);
        assert(keys[i] == d[i]);
        assert forall|j: int| 0 <= j < i implies keys[j] != k by {
            assert(keys[j] == d[j]);
        }
        assert(is_first(keys, k, i));
        lemma_first_unique(keys, k, i);
    }
}

/// Keys after an insert: unchanged when the key was present, else extended.
pub proof fn lemma_insert_keys<V>(s: Seq<(Seq<char>, V)>, k: Seq<char>, v: V)
    ensures
        has_key(keys_of(s), k) ==> keys_of(assoc_insert(s, k, v)) == keys_of(s),
        !has_key(keys_of(s), k) ==> keys_of(assoc_insert(s, k, v)) == keys_of(s).push(k),
        has_key(keys_of(assoc_insert(s, k, v)), k),
        assoc_insert(s, k, v).len() >= s.len(),
{
    if has_key(keys_of(s), k) {
        lemma_has_first(keys_of(s), k);
        assert(keys_of(assoc_insert(s, k, v)) =~= keys_of(s));
    } else {
        assert(keys_of(assoc_insert(s, k, v)) =~= keys_of(s).push(k));
        assert(keys_of(assoc_insert(s, k, v))[s.len() as int] == k);
    }
}

/// Reading back a key just written gives the written value.
pub proof fn lemma_get_insert_same<V>(s: Seq<(Seq<char>, V)>, k: Seq<char>, v: V)
    ensures
        assoc_get(assoc_insert(s, k, v), k) == Some(v),
{
    let t = assoc_insert(s, k, v);
    lemma_insert_keys(s, k, v);
    if has_key(keys_of(s), k) {
        lemma_has_first(keys_of(s), k);
        let i = first_index(keys_of(s), k);
        assert(is_first(keys_of(t), k, i));
        lemma_first_unique(keys_of(t), k, i);
    } else {
        let i = s.len() as int;
        assert forall|j: int| 0 <= j < i implies keys_of(t)[j] != k by {
            assert(keys_of(t)[j] == keys_of(s)[j]);
        }
        assert(is_first(keys_of(t), k, i));
        lemma_first_unique(keys_of(t), k, i);
    }
}

/// Writing a key leaves the other keys' values alone.
pub proof fn lemma_get_insert_other<V>(s: Seq<(Seq<char>, V)>, k: Seq<char>, v: V, q: Seq<char>)
    requires
        q != k,
    ensures
        assoc_get(assoc_insert(s, k, v), q) == assoc_get(s, q),
{
    let t = assoc_insert(s, k, v);
    lemma_insert_keys(s, k, v);
    if has_key(keys_of(s), q) {
        lemma_has_first(keys_of(s), q);
        let i = first_index(keys_of(s), q);
        assert(keys_of(t)[i] == q);
        assert forall|j: int| 0 <= j < i implies keys_of(t)[j] != q by {
            if has_key(keys_of(s), k) {
                assert(keys_of(t)[j] == keys_of(s)[j]);
            } else {
                assert(keys_of(t)[j] == keys_of(s)[j]);
            }
        }
        lemma_first_unique(keys_of(t), q, i);
        if has_key(keys_of(s), k) {
            lemma_has_first(keys_of(s), k);
        }
    } else {
        if has_key(keys_of(t), q) {
            let w = choose|w: int| 0 <= w < keys_of(t).len() && keys_of(t)[w] == q;
            if has_key(keys_of(s), k) {
                assert(keys_of(s)[w] == q);
            } else {
                if w < s.len() {
                    assert(keys_of(s)[w] == q);
                }
            }
        }
    }
}

/// Inserting the same pair twice is the same as inserting it once.
pub proof fn lemma_insert_idempotent<V>(s: Seq<(Seq<char>, V)>, k: Seq<char>, v: V)
    ensures
        assoc_insert(assoc_insert(s, k, v), k, v) == assoc_insert(s, k, v),
{
    let t = assoc_insert(s, k, v);
    lemma_insert_keys(s, k, v);
    lemma_has_first(keys_of(t), k);
    let i = first_index(keys_of(t), k);
    assert(t[i].0 == k);
    if has_key(keys_of(s), k) {
        lemma_has_first(keys_of(s), k);
        let i0 = first_index(keys_of(s), k);
        assert(is_first(keys_of(t), k, i0));
        lemma_first_unique(keys_of(t), k, i0);
    } else {
        assert(is_first(keys_of(t), k, s.len() as int)) by {
            assert forall|j: int| 0 <= j < s.len() implies keys_of(t)[j] != k by {
                assert(keys_of(t)[j] == keys_of(s)[j]);
            }
        }
        lemma_first_unique(keys_of(t), k, s.len() as int);
    }
    assert(assoc_insert(t, k, v) =~= t);
}

/// The keys of a vector of `(String, V)` pairs.
pub open spec fn entry_keys<V>(s: Seq<(String, V)>) -> Seq<Seq<char>> {
    Seq::new(s.len(), |i: int| s[i].0@)
}

/// The first position whose key is `key`.
pub fn find_key<V>(entries: &Vec<(String, V)>, key: &str) -> (r: Option<usize>)
    ensures
        match r {
            Some(i) => is_first(entry_keys(entries@), key@, i as int),
            None => !has_key(entry_keys(entries@), key@),
        },
{
    let kv = chars_of(key);
    let mut i: usize = 0;
    while i < entries.len()
        invariant
            kv@ == key@,
            i <= entries.len(),
            forall|j: int| 0 <= j < i ==> entry_keys(entries@)[j] != key@,
        decreases entries.len() - i,
    {
        let ek = chars_of(entries[i].0.as_str());
        if chars_eq(ek.as_slice(), kv.as_slice()) {
            return Some(i);
        }
        i = i + 1;
    }
    None
}

/// A text-to-text map that keeps insertion order.
#[derive(Debug)]
pub struct StrMap {
    entries: Vec<(String, String)>,
}

impl View for StrMap {
    type V = Seq<(Seq<char>, Seq<char>)>;

    closed spec fn view(&self) -> Seq<(Seq<char>, Seq<char>)> {
        Seq::new(self.entries@.len(), |i: int| (self.entries@[i].0@, self.entries@[i].1@))
    }
}

impl StrMap {
    proof fn lemma_keys(&self)
        ensures
            keys_of(self@) == entry_keys(self.entries@),
            self@.len() == self.entries@.len(),
    {
        assert(keys_of(self@) =~= entry_keys(self.entries@));
    }

    /// An empty map.
    pub fn new() -> (r: StrMap)
        ensures
            r@ == Seq::<(Seq<char>, Seq<char>)>::empty(),
    {
        let r = StrMap { entries: Vec::new() };
        assert(r@ =~= Seq::<(Seq<char>, Seq<char>)>::empty());
        r
    }

    /// Number of entries.
    pub fn len(&self) -> (r: usize)
        ensures
            r == self@.len(),
    {
        self.entries.len()
    }

    /// Whether the map has no entries.
    pub fn is_empty(&self) -> (r: bool)
        ensures
            r == (self@.len() == 0),
    {
        self.entries.len() == 0
    }

    /// The value stored under `key`.
    pub fn get(&self, key: &str) -> (r: Option<&String>)
        ensures
            match r {
                Some(v) => assoc_get(self@, key@) == Some(v@),
                None => assoc_get(self@, key@) is None,
            },
    {
        proof {
            self.lemma_keys();
        }
        match find_key(&self.entries, key) {
            Some(i) => {
                proof {
                    lemma_first_unique(keys_of(self@), key@, i as int);
                }
                Some(&self.entries[i].1)
            },
            None => None,
        }
    }

    /// Whether `key` has an entry.
    pub fn contains_key(&self, key: &str) -> (r: bool)
        ensures
            r == has_key(keys_of(self@), key@),
    {
        proof {
            self.lemma_keys();
        }
        find_key(&self.entries, key).is_some()
    }

    /// Maps `key` to `value`, replacing an existing entry in place.
    pub fn insert(&mut self, key: String, value: String)
        ensures
            final(self)@ == assoc_insert(old(self)@, key@, value@),
    {
        proof {
            self.lemma_keys();
        }
        match find_key(&self.entries, key.as_str()) {
            Some(i) => {
                proof {
                    lemma_first_unique(keys_of(self@), key@, i as int);
                }
                let ghost prev = self@;
                self.entries.set(i, (key, value));
                assert(self@ =~= prev.update(i as int, (key@, value@)));
            },
            None => {
                let ghost prev = self@;
                self.entries.push((key, value));
                assert(self@ =~= prev.push((key@, value@)));
            },
        }
    }

    /// The `i`-th entry.
    pub fn entry(&self, i: usize) -> (r: (&String, &String))
        requires
            i < self@.len(),
        ensures
            r.0@ == self@[i as int].0,
            r.1@ == self@[i as int].1,
    {
        (&self.entries[i].0, &self.entries[i].1)
    }

    /// A copy of the map.
    pub fn duplicate(&self) -> (r: StrMap)
        ensures
            r@ == self@,
    {
        let mut out: Vec<(String, String)> = Vec::new();
        let mut i: usize = 0;
        while i < self.entries.len()
            invariant
                i <= self.entries.len(),
                out@.len() == i,
                forall|j: int| 0 <= j < i ==> out@[j].0@ == self.entries@[j].0@ && out@[j].1@
                    == self.entries@[j].1@,
            decreases self.entries.len() - i,
        {
            let k = self.entries[i].0.clone();
            let v = self.entries[i].1.clone();
            out.push((k, v));
            i = i + 1;
        }
        let r = StrMap { entries: out };
        assert(r@ =~= self@);
        r
    }
}

} // verus!
