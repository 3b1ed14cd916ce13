//! A finite map held as a list of entries with distinct keys, in insertion
//! order. It stands for the keyed storage entries of a contract.
use vstd::prelude::*;
use crate::keys::{copy_all, push_str, remove_first, without_first, Key};

verus! {

/// No two entries of `s` have the same key.
pub open spec fn keys_distinct<K: View, V>(s: Seq<(K, V)>) -> bool {
    forall|i: int, j: int| 0 <= i < j < s.len() ==> s[i].0@ != s[j].0@
}

/// The map that the entries `s` describe.
pub open spec fn entries_map<K: View, V>(s: Seq<(K, V)>) -> Map<K::V, V>
    decreases s.len(),
{
    if s.len() == 0 {
        Map::empty()
    } else {
        entries_map(s.drop_last()).insert(s.last().0@, s.last().1)
    }
}

proof fn lemma_dom<K: View, V>(s: Seq<(K, V)>)
    ensures
        entries_map(s).dom().finite(),
        forall|k: K::V| #[trigger]
            entries_map(s).dom().contains(k) <==> exists|i: int| 0 <= i < s.len() && s[i].0@ == k,
    decreases s.len(),
{
    if s.len() > 0 {
        let t = s.drop_last();
        lemma_dom(t);
        assert forall|k: K::V| #[trigger]
            entries_map(s).dom().contains(k) <==> exists|i: int| 0 <= i < s.len() && s[i].0@ == k by {
            if entries_map(s).dom().contains(k) {
                if k == s.last().0@ {
                    assert(s[s.len() - 1].0@ == k);
                } else {
                    let i = choose|i: int| 0 <= i < t.len() && t[i].0@ == k;
                    assert(s[i].0@ == k);
                }
            }
            if exists|i: int| 0 <= i < s.len() && s[i].0@ == k {
                let i = choose|i: int| 0 <= i < s.len() && s[i].0@ == k;
                if i < s.len() - 1 {
                    assert(t[i].0@ == k);
                }
            }
        }
    }
}

proof fn lemma_value<K: View, V>(s: Seq<(K, V)>, i: int)
    requires
        keys_distinct(s),
        0 <= i < s.len(),
    ensures
        entries_map(s).dom().contains(s[i].0@),
        entries_map(s)[s[i].0@] == s[i].1,
    decreases s.len(),
{
    lemma_dom(s);
    if i < s.len() - 1 {
        let t = s.drop_last();
        assert(t[i] == s[i]);
        lemma_value(t, i);
    }
}

proof fn lemma_absent<K: View, V>(s: Seq<(K, V)>, i: int)
    requires
        keys_distinct(s),
        0 <= i < s.len(),
    ensures
        !entries_map(s.remove(i)).dom().contains(s[i].0@),
{
    let r = s.remove(i);
    lemma_dom(r);
    if entries_map(r).dom().contains(s[i].0@) {
        let j = choose|j: int| 0 <= j < r.len() && r[j].0@ == s[i].0@;
        if j < i {
            assert(r[j] == s[j]);
        } else {
            assert(r[j] == s[j + 1]);
        }
    }
}

proof fn lemma_update<K: View, V>(s: Seq<(K, V)>, i: int, e: (K, V))
    requires
        keys_distinct(s),
        0 <= i < s.len(),
        e.0@ == s[i].0@,
    ensures
        entries_map(s.update(i, e)) == entries_map(s).insert(e.0@, e.1),
        keys_distinct(s.update(i, e)),
    decreases s.len(),
{
    let u = s.update(i, e);
    let t = s.drop_last();
    if i == s.len() - 1 {
        assert(u.drop_last() =~= t);
        assert(entries_map(u) =~= entries_map(s).insert(e.0@, e.1));
    } else {
        assert(u.drop_last() =~= t.update(i, e));
        lemma_update(t, i, e);
        assert(s[i].0@ != s.last().0@);
        assert(entries_map(u) =~= entries_map(s).insert(e.0@, e.1));
    }
}

proof fn lemma_remove<K: View, V>(s: Seq<(K, V)>, i: int)
    requires
        keys_distinct(s),
        0 <= i < s.len(),
    ensures
        entries_map(s.remove(i)) == entries_map(s).remove(s[i].0@),
        keys_distinct(s.remove(i)),
    decreases s.len(),
{
    let r = s.remove(i);
    let t = s.drop_last();
    assert(keys_distinct(r)) by {
        assert forall|a: int, b: int| 0 <= a < b < r.len() implies r[a].0@ != r[b].0@ by {
            let a1 = if a < i { a } else { a + 1 };
            let b1 = if b < i { b } else { b + 1 };
            assert(r[a] == s[a1] && r[b] == s[b1]);
        }
    }
    if i == s.len() - 1 {
        assert(r =~= t);
        lemma_absent(s, i);
        assert(entries_map(r) =~= entries_map(s).remove(s[i].0@));
    } else {
        assert(r.drop_last() =~= t.remove(i));
        assert(r.last() == s.last());
        lemma_remove(t, i);
        assert(s[i].0@ != s.last().0@);
        assert(entries_map(r) =~= entries_map(s).remove(s[i].0@));
    }
}

proof fn lemma_len<K: View, V>(s: Seq<(K, V)>)
    requires
        keys_distinct(s),
    ensures
        entries_map(s).dom().len() == s.len(),
    decreases s.len(),
{
    if s.len() > 0 {
        let t = s.drop_last();
        lemma_len(t);
        lemma_dom(t);
        if entries_map(t).dom().contains(s.last().0@) {
            let j = choose|j: int| 0 <= j < t.len() && t[j].0@ == s.last().0@;
            assert(s[j].0@ == s[s.len() - 1].0@);
        }
    }
}

/// A finite map from keys to values, with its entries in insertion order.
pub struct Table<K: Key, V> {
    entries: Vec<(K, V)>,
}

impl<K: Key, V> View for Table<K, V> {
    type V = Map<K::V, V>;

    closed spec fn view(&self) -> Map<K::V, V> {
        entries_map(self.entries@)
    }
}

impl<K: Key, V> Table<K, V> {
    #[verifier::type_invariant]
    spec fn distinct(self) -> bool {
        keys_distinct(self.entries@)
    }

    /// The keys, in insertion order.
    pub closed spec fn key_seq(self) -> Seq<K::V> {
        Seq::new(self.entries@.len(), |i: int| self.entries@[i].0@)
    }

    /// An empty table.
    pub fn new() -> (t: Self)
        ensures
            t@ == Map::<K::V, V>::empty(),
            t.key_seq().len() == 0,
    {
        Table { entries: Vec::new() }
    }

    /// Number of entries.
    pub fn len(&self) -> (n: usize)
        ensures
            n == self@.dom().len(),
            n == self.key_seq().len(),
            self@.dom().finite(),
            self.key_seq().no_duplicates(),
            forall|k: K::V| #[trigger] self@.dom().contains(k) <==> self.key_seq().contains(k),
    {
        proof {
            use_type_invariant(self);
            lemma_len(self.entries@);
            lemma_dom(self.entries@);
            assert forall|k: K::V| #[trigger] self@.dom().contains(k) <==> self.key_seq().contains(k) by {
                if self@.dom().contains(k) {
                    let i = choose|i: int| 0 <= i < self.entries@.len() && self.entries@[i].0@ == k;
                    assert(self.key_seq()[i] == k);
                }
            }
        }
        self.entries.len()
    }

    fn find(&self, k: &K) -> (r: Option<usize>)
        ensures
            match r {
                Some(i) => i < self.entries@.len() && self.entries@[i as int].0@ == k@,
                None => !self@.dom().contains(k@),
            },
    {
        proof {
            lemma_dom(self.entries@);
        }
        let mut i: usize = 0;
        while i < self.entries.len()
            invariant
                i <= self.entries@.len(),
                forall|j: int| 0 <= j < i ==> self.entries@[j].0@ != k@,
            decreases self.entries@.len() - i,
        {
            if self.entries[i].0.same(k) {
                return Some(i);
            }
            i = i + 1;
        }
        None
    }

    /// Whether `k` has an entry.
    pub fn contains_key(&self, k: &K) -> (r: bool)
        ensures
            r == self@.dom().contains(k@),
    {
        proof {
            use_type_invariant(self);
        }
        match self.find(k) {
            Some(i) => {
                proof {
                    lemma_value(self.entries@, i as int);
                }
                true
            },
            None => false,
        }
    }

    /// The value stored under `k`, if any.
    pub fn get(&self, k: &K) -> (r: Option<&V>)
        ensures
            match r {
                Some(v) => self@.dom().contains(k@) && *v == self@[k@],
                None => !self@.dom().contains(k@),
            },
    {
        proof {
            use_type_invariant(self);
        }
        match self.find(k) {
            Some(i) => {
                proof {
                    lemma_value(self.entries@, i as int);
                }
                Some(&self.entries[i].1)
            },
            None => None,
        }
    }

    /// Store `v` under `k`, replacing any value there. A new key goes last.
    pub fn set(&mut self, k: K, v: V)
        ensures
            final(self)@ == old(self)@.insert(k@, v),
            old(self)@.dom().contains(k@) ==> final(self).key_seq() == old(self).key_seq(),
            !old(self)@.dom().contains(k@) ==> final(self).key_seq() == old(self).key_seq().push(
                k@,
            ),
    {
        proof {
            use_type_invariant(&*self);
        }
        match self.find(&k) {
            Some(i) => {
                proof {
                    lemma_value(self.entries@, i as int);
                    lemma_update(self.entries@, i as int, (k, v));
                }
                let mut entries: Vec<(K, V)> = Vec::new();
                std::mem::swap(&mut entries, &mut self.entries);
                entries.set(i, (k, v));
                self.entries = entries;
                assert(self.key_seq() =~= old(self).key_seq());
            },
            None => {
                proof {
                    lemma_dom(self.entries@);
                    assert(keys_distinct(self.entries@.push((k, v)))) by {
                        assert forall|a: int, b: int|
                            0 <= a < b < self.entries@.len() + 1 implies #[trigger] self.entries@.push(
                            (k, v),
                        )[a].0@ != #[trigger] self.entries@.push((k, v))[b].0@ by {
                            if b == self.entries@.len() {
                                assert(self.entries@[a].0@ != k@);
                            }
                        }
                    }
                    assert(self.entries@.push((k, v)).drop_last() =~= self.entries@);
                }
                let ghost kv = k@;
                let mut entries: Vec<(K, V)> = Vec::new();
                std::mem::swap(&mut entries, &mut self.entries);
                entries.push((k, v));
                self.entries = entries;
                assert(self.key_seq() =~= old(self).key_seq().push(kv));
            },
        }
    }

    /// Remove the entry under `k`, if any; the others keep their order.
    pub fn remove(&mut self, k: &K)
        ensures
            final(self)@ == old(self)@.remove(k@),
    {
        proof {
            use_type_invariant(&*self);
        }
        match self.find(k) {
            Some(i) => {
                proof {
                    lemma_remove(self.entries@, i as int);
                }
                let mut entries: Vec<(K, V)> = Vec::new();
                std::mem::swap(&mut entries, &mut self.entries);
                entries.remove(i);
                self.entries = entries;
            },
            None => {
                assert(self@ =~= old(self)@.remove(k@));
            },
        }
    }

    /// The key and value of the `i`-th entry in insertion order.
    pub fn entry_at(&self, i: usize) -> (r: (&K, &V))
        requires
            i < self.key_seq().len(),
        ensures
            r.0@ == self.key_seq()[i as int],
            self@.dom().contains(r.0@),
            self@[r.0@] == *r.1,
    {
        proof {
            use_type_invariant(self);
            lemma_value(self.entries@, i as int);
        }
        let e = &self.entries[i];
        (&e.0, &e.1)
    }
}

/// The list stored under `k` in `t`, empty when there is none.
pub open spec fn list_of(t: Map<Seq<char>, Vec<String>>, k: Seq<char>) -> Seq<Seq<char>> {
    if t.contains_key(k) {
        t[k].deep_view()
    } else {
        Seq::empty()
    }
}

/// A copy of the list stored under `k` in `t` (empty when there is none).
pub fn list_copy(t: &Table<String, Vec<String>>, k: &String) -> (r: Vec<String>)
    ensures
        r.deep_view() == list_of(t@, k@),
{
    match t.get(k) {
        Some(v) => copy_all(v),
        None => Vec::new(),
    }
}

/// Append `x` to the list stored under `k` (creating it).
pub fn append_to(t: &mut Table<String, Vec<String>>, k: String, x: String)
    ensures
        final(t)@.dom() == old(t)@.dom().insert(k@),
        forall|y: Seq<char>| #[trigger]
            list_of(final(t)@, y) == if y == k@ {
                list_of(old(t)@, k@).push(x@)
            } else {
                list_of(old(t)@, y)
            },
{
    let mut v = list_copy(t, &k);
    push_str(&mut v, x);
    let ghost kv = k@;
    t.set(k, v);
    assert(final(t)@.dom() =~= old(t)@.dom().insert(kv));
}

/// Remove the first `x` from the list stored under `k`, which exists.
pub fn remove_from(t: &mut Table<String, Vec<String>>, k: String, x: &String)
    requires
        old(t)@.contains_key(k@),
    ensures
        final(t)@.dom() == old(t)@.dom(),
        forall|y: Seq<char>| #[trigger]
            list_of(final(t)@, y) == if y == k@ {
                without_first(list_of(old(t)@, k@), x@)
            } else {
                list_of(old(t)@, y)
            },
{
    let mut v = list_copy(t, &k);
    remove_first(&mut v, x);
    let ghost kv = k@;
    t.set(k, v);
    assert(final(t)@.dom() =~= old(t)@.dom());
}

} // verus!
