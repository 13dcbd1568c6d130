//! A small association table: a vector of key/value entries with distinct
//! keys, viewed as a finite map. Keys are compared by their views, so keys
//! that own heap data (such as symbols) can be used as well as plain ids.
use vstd::prelude::*;

verus! {

/// Keys whose equality a table can decide at run time: two keys are the
/// same key exactly when their views are equal.
pub trait TableKey: View + Sized {
    fn same_key(&self, other: &Self) -> (b: bool)
        ensures
            b == (self@ == other@),
    ;
}

/// No two entries of `s` carry the same key.
pub open spec fn distinct_keys<K: View, V>(s: Seq<(K, V)>) -> bool {
    forall|i: int, j: int| 0 <= i < j < s.len() ==> s[i].0@ != s[j].0@
}

/// The map that a sequence of entries stands for; a later entry wins over an
/// earlier one with the same key.
pub open spec fn entries_map<K: View, V>(s: Seq<(K, V)>) -> Map<K::V, V>
    decreases s.len(),
{
    if s.len() == 0 {
        Map::empty()
    } else {
        entries_map(s.drop_last()).insert(s.last().0@, s.last().1)
    }
}

/// The keys of the map are exactly the keys of the entries.
pub proof fn lemma_entries_map_dom<K: View, V>(s: Seq<(K, V)>)
    ensures
        forall|k: K::V| #[trigger]
            entries_map(s).dom().contains(k) <==> exists|i: int| 0 <= i < s.len() && s[i].0@ == k,
    decreases s.len(),
{
    if s.len() > 0 {
        lemma_entries_map_dom(s.drop_last());
        assert forall|k: K::V| #[trigger]
            entries_map(s).dom().contains(k) implies exists|i: int|
                0 <= i < s.len() && s[i].0@ == k by {
            if k == s.last().0@ {
                assert(s[s.len() - 1].0@ == k);
            } else {
                assert(entries_map(s.drop_last()).dom().contains(k));
                let i = choose|i: int| 0 <= i < s.drop_last().len() && s.drop_last()[i].0@ == k;
                assert(s[i].0@ == k);
            }
        }
        assert forall|k: K::V|
            (exists|i: int| 0 <= i < s.len() && s[i].0@ == k) implies #[trigger] entries_map(
            s,
        ).dom().contains(k) by {
            let i = choose|i: int| 0 <= i < s.len() && s[i].0@ == k;
            if i < s.len() - 1 {
                assert(s.drop_last()[i].0@ == k);
                assert(entries_map(s.drop_last()).dom().contains(k));
            }
        }
    }
}

/// With distinct keys, the map gives back the value of the entry that holds a key.
pub proof fn lemma_entries_map_get<K: View, V>(s: Seq<(K, V)>, i: int)
    requires
        distinct_keys(s),
        0 <= i < s.len(),
    ensures
        entries_map(s).dom().contains(s[i].0@),
        entries_map(s)[s[i].0@] == s[i].1,
    decreases s.len(),
{
    if i < s.len() - 1 {
        let t = s.drop_last();
        assert(distinct_keys(t));
        assert(t[i] == s[i]);
        lemma_entries_map_get(t, i);
        assert(s[i].0@ != s[s.len() - 1].0@);
    }
}

/// Removing the entry at `i` removes its key from the map and keeps the keys distinct.
pub proof fn lemma_entries_map_remove<K: View, V>(s: Seq<(K, V)>, i: int)
    requires
        distinct_keys(s),
        0 <= i < s.len(),
    ensures
        distinct_keys(s.remove(i)),
        entries_map(s.remove(i)) == entries_map(s).remove(s[i].0@),
        forall|j: int| 0 <= j < s.remove(i).len() ==> s.remove(i)[j].0@ != s[i].0@,
    decreases s.len(),
{
    let t = s.remove(i);
    let k = s[i].0@;
    assert forall|a: int, b: int| 0 <= a < b < t.len() implies t[a].0@ != t[b].0@ by {
        let aa = if a < i { a } else { a + 1 };
        let bb = if b < i { b } else { b + 1 };
        assert(t[a] == s[aa]);
        assert(t[b] == s[bb]);
    }
    assert forall|j: int| 0 <= j < t.len() implies t[j].0@ != k by {
        let jj = if j < i { j } else { j + 1 };
        assert(t[j] == s[jj]);
    }
    if i == s.len() - 1 {
        assert(t =~= s.drop_last());
        lemma_entries_map_dom(s.drop_last());
        assert(!entries_map(s.drop_last()).dom().contains(k)) by {
            if entries_map(s.drop_last()).dom().contains(k) {
                let j = choose|j: int| 0 <= j < s.drop_last().len() && s.drop_last()[j].0@ == k;
                assert(s[j].0@ == k);
            }
        }
        assert(entries_map(t) =~= entries_map(s).remove(k));
    } else {
        let d = s.drop_last();
        assert(distinct_keys(d));
        assert(d[i] == s[i]);
        lemma_entries_map_remove(d, i);
        assert(t.drop_last() =~= d.remove(i));
        assert(t.last() == s.last());
        assert(s.last().0@ != k);
        assert(entries_map(t) =~= entries_map(s).remove(k));
    }
}

/// A finite map from keys to values, kept as a vector of entries.
pub struct Table<K, V> {
    entries: Vec<(K, V)>,
}

impl<K: TableKey, V> View for Table<K, V> {
    type V = Map<K::V, V>;

    closed spec fn view(&self) -> Map<K::V, V> {
        entries_map(self.entries@)
    }
}

impl<K: TableKey, V> Table<K, V> {
    /// The table's own invariant: its entries carry distinct keys.
    pub closed spec fn wf(&self) -> bool {
        distinct_keys(self.entries@)
    }

    pub fn new() -> (t: Self)
        ensures
            t.wf(),
            t@ == Map::<K::V, V>::empty(),
    {
        Table { entries: Vec::new() }
    }

    fn find(&self, k: &K) -> (r: Option<usize>)
        ensures
            match r {
                Some(i) => i < self.entries@.len() && self.entries@[i as int].0@ == k@,
                None => forall|j: int|
                    0 <= j < self.entries@.len() ==> self.entries@[j].0@ != k@,
            },
    {
        let mut idx: usize = 0;
        while idx < self.entries.len()
            invariant
                idx <= self.entries@.len(),
                forall|j: int| 0 <= j < idx ==> self.entries@[j].0@ != k@,
            decreases self.entries@.len() - idx,
        {
            if self.entries[idx].0.same_key(k) {
                return Some(idx);
            }
            idx = idx + 1;
        }
        None
    }

    /// Whether the table holds `k`.
    pub fn contains(&self, k: &K) -> (b: bool)
        requires
            self.wf(),
        ensures
            b == self@.contains_key(k@),
    {
        proof {
            lemma_entries_map_dom(self.entries@);
        }
        match self.find(k) {
            Some(i) => true,
            None => false,
        }
    }

    /// The value stored under `k`, if any.
    pub fn get(&self, k: &K) -> (r: Option<&V>)
        requires
            self.wf(),
        ensures
            match r {
                Some(v) => self@.contains_key(k@) && *v == self@[k@],
                None => !self@.contains_key(k@),
            },
    {
        proof {
            lemma_entries_map_dom(self.entries@);
        }
        match self.find(k) {
            Some(i) => {
                proof {
                    lemma_entries_map_get(self.entries@, i as int);
                }
                Some(&self.entries[i].1)
            },
            None => None,
        }
    }

    /// Stores `v` under `k`, replacing any earlier value.
    pub fn insert(&mut self, k: K, v: V)
        requires
            old(self).wf(),
        ensures
            final(self).wf(),
            final(self)@ == old(self)@.insert(k@, v),
    {
        let ghost k_view = k@;
        match self.find(&k) {
            Some(i) => {
                proof {
                    lemma_entries_map_remove(self.entries@, i as int);
                }
                let _ = self.entries.remove(i);
            },
            None => {},
        }
        proof {
            lemma_entries_map_dom(self.entries@);
            assert(!self@.contains_key(k_view));
        }
        let ghost before = self.entries@;
        self.entries.push((k, v));
        proof {
            assert(self.entries@.drop_last() =~= before);
            assert(self@ =~= old(self)@.insert(k_view, v));
        }
    }

    /// Removes `k` from the table; a table without `k` is left as it is.
    pub fn remove(&mut self, k: &K)
        requires
            old(self).wf(),
        ensures
            final(self).wf(),
            final(self)@ == old(self)@.remove(k@),
    {
        match self.find(k) {
            Some(i) => {
                proof {
                    lemma_entries_map_remove(self.entries@, i as int);
                }
                let _ = self.entries.remove(i);
            },
            None => {
                proof {
                    lemma_entries_map_dom(self.entries@);
                    assert(old(self)@.remove(k@) =~= old(self)@);
                }
            },
        }
    }
}

impl<K: TableKey, V: Copy> Table<K, V> {
    /// The value stored under `k`, or `default` when there is none.
    pub fn get_or(&self, k: &K, default: V) -> (r: V)
        requires
            self.wf(),
        ensures
            r == (if self@.contains_key(k@) { self@[k@] } else { default }),
    {
        match self.get(k) {
            Some(v) => *v,
            None => default,
        }
    }
}

} // verus!
