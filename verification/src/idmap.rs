//! An insertion-ordered table keyed by identifiers.
//!
//! The registries of the gateway (sessions, handles, rooms, mountpoints, …)
//! are tables from integer identifiers to records. This table keeps its
//! entries in a `Vec` in insertion order, with no key occurring twice, and is
//! specified both as a `Map` (what is stored under which key) and as the
//! ordered sequence of its entries (the order in which listings report them).
use vstd::prelude::*;

verus! {

/// Keys whose executable equality is spec equality.
pub trait TableKey: Copy {
    fn same_key(&self, other: &Self) -> (b: bool)
        ensures
            b == (*self == *other),
    ;
}

impl TableKey for u64 {
    fn same_key(&self, other: &Self) -> (b: bool) {
        *self == *other
    }
}

/// Key of a plugin handle: the session it belongs to and the handle itself.
#[derive(Clone, Copy, Debug)]
pub struct HandleKey {
    pub session: u64,
    pub handle: u64,
}

impl TableKey for HandleKey {
    fn same_key(&self, other: &Self) -> (b: bool) {
        self.session == other.session && self.handle == other.handle
    }
}

/// No key occurs twice in `s`.
pub open spec fn unique_keys<K, V>(s: Seq<(K, V)>) -> bool {
    forall|i: int, j: int| 0 <= i < s.len() && 0 <= j < s.len() && i != j ==> s[i].0 != s[j].0
}

/// `k` is the key of some entry of `s`.
pub open spec fn has_key<K, V>(s: Seq<(K, V)>, k: K) -> bool {
    exists|i: int| 0 <= i < s.len() && s[i].0 == k
}

/// The map that a sequence of entries with unique keys describes.
pub open spec fn entries_map<K, V>(s: Seq<(K, V)>) -> Map<K, V> {
    Map::new(
        |k: K| has_key(s, k),
        |k: K| s[choose|i: int| 0 <= i < s.len() && s[i].0 == k].1,
    )
}

/// The keys of a sequence of entries, in order.
pub open spec fn key_seq<K, V>(s: Seq<(K, V)>) -> Seq<K> {
    s.map_values(|e: (K, V)| e.0)
}

/// With unique keys, the value stored under the key of entry `i` is its value.
pub proof fn lemma_entries_map_at<K, V>(s: Seq<(K, V)>, i: int)
    requires
        unique_keys(s),
        0 <= i < s.len(),
    ensures
        entries_map(s).contains_key(s[i].0),
        entries_map(s)[s[i].0] == s[i].1,
{
    let k = s[i].0;
    assert(has_key(s, k));
    let j = choose|j: int| 0 <= j < s.len() && s[j].0 == k;
    assert(j == i);
}

/// Replacing the value of entry `i` updates the map at its key.
pub proof fn lemma_entries_map_update<K, V>(s: Seq<(K, V)>, i: int, v: V)
    requires
        unique_keys(s),
        0 <= i < s.len(),
    ensures
        unique_keys(s.update(i, (s[i].0, v))),
        entries_map(s.update(i, (s[i].0, v))) == entries_map(s).insert(s[i].0, v),
{
    let t = s.update(i, (s[i].0, v));
    let k = s[i].0;
    assert(unique_keys(t));
    assert forall|x: K| #[trigger] entries_map(t).contains_key(x) == entries_map(s).insert(k, v).contains_key(x) by {
        if has_key(t, x) {
            let j = choose|j: int| 0 <= j < t.len() && t[j].0 == x;
            assert(s[j].0 == x);
        }
        if has_key(s, x) {
            let j = choose|j: int| 0 <= j < s.len() && s[j].0 == x;
            assert(t[j].0 == x);
        }
    }
    assert forall|x: K| #[trigger] entries_map(t).contains_key(x) implies entries_map(t)[x] == entries_map(s).insert(k, v)[x] by {
        let j = choose|j: int| 0 <= j < t.len() && t[j].0 == x;
        lemma_entries_map_at(t, j);
        if j != i {
            lemma_entries_map_at(s, j);
        }
    }
    assert(entries_map(t) =~= entries_map(s).insert(k, v));
}

/// Appending an entry with a new key inserts it into the map.
pub proof fn lemma_entries_map_push<K, V>(s: Seq<(K, V)>, k: K, v: V)
    requires
        unique_keys(s),
        !has_key(s, k),
    ensures
        unique_keys(s.push((k, v))),
        entries_map(s.push((k, v))) == entries_map(s).insert(k, v),
{
    let t = s.push((k, v));
    assert(unique_keys(t));
    assert forall|x: K| #[trigger] entries_map(t).contains_key(x) == entries_map(s).insert(k, v).contains_key(x) by {
        if has_key(t, x) {
            let j = choose|j: int| 0 <= j < t.len() && t[j].0 == x;
            if j < s.len() {
                assert(s[j].0 == x);
            }
        }
        if has_key(s, x) {
            let j = choose|j: int| 0 <= j < s.len() && s[j].0 == x;
            assert(t[j].0 == x);
        }
        if x == k {
            assert(t[s.len() as int].0 == x);
        }
    }
    assert forall|x: K| #[trigger] entries_map(t).contains_key(x) implies entries_map(t)[x] == entries_map(s).insert(k, v)[x] by {
        let j = choose|j: int| 0 <= j < t.len() && t[j].0 == x;
        lemma_entries_map_at(t, j);
        if j < s.len() {
            lemma_entries_map_at(s, j);
        }
    }
    assert(entries_map(t) =~= entries_map(s).insert(k, v));
}

/// Removing entry `i` removes its key from the map.
pub proof fn lemma_entries_map_remove<K, V>(s: Seq<(K, V)>, i: int)
    requires
        unique_keys(s),
        0 <= i < s.len(),
    ensures
        unique_keys(s.remove(i)),
        entries_map(s.remove(i)) == entries_map(s).remove(s[i].0),
{
    let t = s.remove(i);
    let k = s[i].0;
    assert forall|a: int, b: int| 0 <= a < t.len() && 0 <= b < t.len() && a != b implies t[a].0 != t[b].0 by {
        let a2 = if a < i { a } else { a + 1 };
        let b2 = if b < i { b } else { b + 1 };
        assert(t[a] == s[a2]);
        assert(t[b] == s[b2]);
    }
    assert forall|x: K| #[trigger] entries_map(t).contains_key(x) == entries_map(s).remove(k).contains_key(x) by {
        if has_key(t, x) {
            let j = choose|j: int| 0 <= j < t.len() && t[j].0 == x;
            let j2 = if j < i { j } else { j + 1 };
            assert(s[j2].0 == x);
            assert(j2 != i);
        }
        if has_key(s, x) && x != k {
            let j = choose|j: int| 0 <= j < s.len() && s[j].0 == x;
            assert(j != i);
            let j2 = if j < i { j } else { j - 1 };
            assert(t[j2].0 == x);
        }
    }
    assert forall|x: K| #[trigger] entries_map(t).contains_key(x) implies entries_map(t)[x] == entries_map(s).remove(k)[x] by {
        let j = choose|j: int| 0 <= j < t.len() && t[j].0 == x;
        lemma_entries_map_at(t, j);
        let j2 = if j < i { j } else { j + 1 };
        assert(s[j2] == t[j]);
        lemma_entries_map_at(s, j2);
    }
    assert(entries_map(t) =~= entries_map(s).remove(k));
}

/// The map of a sequence with unique keys has as many keys as entries.
pub proof fn lemma_entries_map_len<K, V>(s: Seq<(K, V)>)
    requires
        unique_keys(s),
    ensures
        entries_map(s).dom() == key_seq(s).to_set(),
        key_seq(s).no_duplicates(),
        entries_map(s).dom().len() == s.len(),
{
    let ks = key_seq(s);
    assert forall|x: K| #[trigger] entries_map(s).dom().contains(x) == ks.to_set().contains(x) by {
        if has_key(s, x) {
            let j = choose|j: int| 0 <= j < s.len() && s[j].0 == x;
            assert(ks[j] == x);
        }
        if ks.contains(x) {
            let j = choose|j: int| 0 <= j < ks.len() && ks[j] == x;
            assert(s[j].0 == x);
        }
    }
    assert(entries_map(s).dom() =~= ks.to_set());
    assert(ks.no_duplicates());
    ks.unique_seq_to_set();
}

/// An insertion-ordered table with unique keys.
#[derive(Debug)]
pub struct Table<K, V> {
    entries: Vec<(K, V)>,
}

impl<K, V> View for Table<K, V> {
    type V = Map<K, V>;

    open spec fn view(&self) -> Map<K, V> {
        entries_map(self.entries())
    }
}

impl<K, V> Table<K, V> {
    /// The entries in insertion order.
    pub closed spec fn entries(&self) -> Seq<(K, V)> {
        self.entries@
    }

    /// The table's invariant: no key occurs twice.
    pub open spec fn wf(&self) -> bool {
        unique_keys(self.entries())
    }
}

impl<K: TableKey, V> Table<K, V> {

    /// An empty table.
    pub fn new() -> (t: Self)
        ensures
            t.wf(),
            t.entries() == Seq::<(K, V)>::empty(),
            t@ == Map::<K, V>::empty(),
    {
        let t = Table { entries: Vec::new() };
        assert(t@ =~= Map::<K, V>::empty());
        t
    }

    /// Number of entries.
    pub fn len(&self) -> (n: usize)
        requires
            self.wf(),
        ensures
            n == self.entries().len(),
            n == self@.dom().len(),
    {
        proof {
            lemma_entries_map_len(self.entries());
        }
        self.entries.len()
    }

    /// Whether the table is empty.
    pub fn is_empty(&self) -> (b: bool)
        requires
            self.wf(),
        ensures
            b == (self.entries().len() == 0),
            b == (self@.dom().len() == 0),
    {
        self.len() == 0
    }

    /// Position of the entry with key `k`.
    pub fn index_of(&self, k: &K) -> (r: Option<usize>)
        ensures
            r matches Some(i) ==> i < self.entries().len() && self.entries()[i as int].0 == *k,
            r is None ==> !has_key(self.entries(), *k),
            r is None <==> !self@.contains_key(*k),
    {
        let mut i: usize = 0;
        while i < self.entries.len()
            invariant
                i <= self.entries@.len(),
                forall|j: int| 0 <= j < i ==> self.entries@[j].0 != *k,
            decreases self.entries@.len() - i,
        {
            if self.entries[i].0.same_key(k) {
                assert(has_key(self.entries(), *k));
                return Some(i);
            }
            i = i + 1;
        }
        None
    }

    /// Whether key `k` is present.
    pub fn contains_key(&self, k: &K) -> (b: bool)
        ensures
            b == self@.contains_key(*k),
    {
        self.index_of(k).is_some()
    }

    /// The value stored under `k`.
    pub fn get(&self, k: &K) -> (r: Option<&V>)
        requires
            self.wf(),
        ensures
            r matches Some(v) ==> self@.contains_key(*k) && *v == self@[*k],
            r is None ==> !self@.contains_key(*k),
    {
        match self.index_of(k) {
            Some(i) => {
                proof {
                    lemma_entries_map_at(self.entries(), i as int);
                }
                Some(&self.entries[i].1)
            },
            None => None,
        }
    }

    /// The entry at position `i`.
    pub fn entry_at(&self, i: usize) -> (e: &(K, V))
        requires
            i < self.entries().len(),
        ensures
            *e == self.entries()[i as int],
    {
        &self.entries[i]
    }

    /// Stores `v` under `k`: replaces the value in place when `k` is present,
    /// appends a new entry otherwise.
    pub fn insert(&mut self, k: K, v: V)
        requires
            old(self).wf(),
        ensures
            final(self).wf(),
            final(self)@ == old(self)@.insert(k, v),
            has_key(old(self).entries(), k) ==> final(self).entries().len() == old(self).entries().len(),
            has_key(old(self).entries(), k) ==> key_seq(final(self).entries()) == key_seq(old(self).entries()),
            !has_key(old(self).entries(), k) ==> final(self).entries() == old(self).entries().push((k, v)),
    {
        match self.index_of(&k) {
            Some(i) => {
                proof {
                    lemma_entries_map_update(self.entries(), i as int, v);
                }
                let ghost before = self.entries();
                self.entries.set(i, (k, v));
                assert(self.entries() == before.update(i as int, (before[i as int].0, v)));
                assert(key_seq(self.entries()) =~= key_seq(before));
            },
            None => {
                proof {
                    lemma_entries_map_push(self.entries(), k, v);
                }
                self.entries.push((k, v));
            },
        }
    }

    /// Removes the entry with key `k`, returning its value; the other entries
    /// keep their order.
    pub fn remove(&mut self, k: &K) -> (r: Option<V>)
        requires
            old(self).wf(),
        ensures
            final(self).wf(),
            final(self)@ == old(self)@.remove(*k),
            r matches Some(v) ==> old(self)@.contains_key(*k) && v == old(self)@[*k],
            r is None ==> !old(self)@.contains_key(*k) && *final(self) == *old(self),
    {
        match self.index_of(k) {
            Some(i) => {
                proof {
                    lemma_entries_map_remove(self.entries(), i as int);
                    lemma_entries_map_at(self.entries(), i as int);
                }
                let e = self.entries.remove(i);
                Some(e.1)
            },
            None => {
                assert(old(self)@.remove(*k) =~= old(self)@);
                None
            },
        }
    }

    /// Puts `v` in place of the value at position `i`, returning the value
    /// that was there; keys and order are unchanged.
    pub fn replace_at(&mut self, i: usize, v: V) -> (prev: V)
        requires
            old(self).wf(),
            i < old(self).entries().len(),
        ensures
            final(self).wf(),
            final(self).entries() == old(self).entries().update(i as int, (old(self).entries()[i as int].0, v)),
            final(self)@ == old(self)@.insert(old(self).entries()[i as int].0, v),
            prev == old(self).entries()[i as int].1,
            old(self)@.contains_key(old(self).entries()[i as int].0),
            old(self)@[old(self).entries()[i as int].0] == prev,
    {
        proof {
            lemma_entries_map_update(self.entries(), i as int, v);
            lemma_entries_map_at(self.entries(), i as int);
        }
        let k = self.entries[i].0;
        let mut e = (k, v);
        std::mem::swap(&mut self.entries[i], &mut e);
        e.1
    }

    /// The keys in insertion order.
    pub fn keys(&self) -> (r: Vec<K>)
        requires
            self.wf(),
        ensures
            r@ == key_seq(self.entries()),
            r@.no_duplicates(),
            r@.to_set() == self@.dom(),
    {
        let mut out: Vec<K> = Vec::new();
        let mut i: usize = 0;
        while i < self.entries.len()
            invariant
                i <= self.entries@.len(),
                out@ == key_seq(self.entries@.subrange(0, i as int)),
            decreases self.entries@.len() - i,
        {
            out.push(self.entries[i].0);
            i = i + 1;
            assert(key_seq(self.entries@.subrange(0, i as int)) =~= key_seq(self.entries@.subrange(0, i - 1)).push(self.entries@[i - 1].0));
        }
        assert(self.entries@.subrange(0, i as int) =~= self.entries@);
        proof {
            lemma_entries_map_len(self.entries());
        }
        out
    }
}

/// An element that `f` maps to something contributes it to
/// `s.filter_map(f)`.
pub proof fn lemma_filter_map_keeps<A, B>(s: Seq<A>, f: spec_fn(A) -> Option<B>, i: int)
    requires
        0 <= i < s.len(),
        f(s[i]) is Some,
    ensures
        s.filter_map(f).contains(f(s[i]).unwrap()),
    decreases s.len(),
{
    let x = f(s[i]).unwrap();
    if i == s.len() - 1 {
        assert((s.drop_last().filter_map(f) + seq![x])[s.drop_last().filter_map(f).len() as int] == x);
    } else {
        assert(s.drop_last()[i] == s[i]);
        lemma_filter_map_keeps(s.drop_last(), f, i);
        let w = s.drop_last().filter_map(f);
        let j = choose|j: int| 0 <= j < w.len() && w[j] == x;
        match f(s.last()) {
            Some(y) => assert((w + seq![y])[j] == x),
            None => {},
        }
    }
}

} // verus!
