//! Verified association tables. The host's persistent store is a key-value
//! contract; inside the core each storage map is modelled as a table of
//! key-value entries with pairwise-distinct keys, viewed as a finite
//! `Map` from key views to value views.

use vstd::prelude::*;
use vstd::std_specs::cmp::PartialEqSpec;

verus! {

/// A key whose equality is decided at the level of its mathematical view.
pub trait ViewKey: View + Sized {
    /// True exactly when the two keys have the same view.
    fn view_eq(&self, other: &Self) -> (r: bool)
        ensures
            r <==> self@ == other@,
    ;
}

impl ViewKey for Vec<u8> {
    fn view_eq(&self, other: &Self) -> (r: bool) {
        let r = *self == *other;
        proof {
            if r {
                assert(self@ =~= other@);
            } else if self@ == other@ {
                assert(self.eq_spec(other));
            }
        }
        r
    }
}

/// An owned copy of a byte string, for installing one value under
/// several keys.
pub fn clone_bytes(v: &Vec<u8>) -> (r: Vec<u8>)
    ensures
        r@ == v@,
{
    let r = v.clone();
    proof {
        assert forall|i: int| 0 <= i < v@.len() implies r@[i] == v@[i] by {
            assert(vstd::pervasive::cloned::<u8>(v[i], r[i]));
        }
        assert(r@ =~= v@);
    }
    r
}

/// True when no two entries of `s` share a key view.
pub open spec fn distinct_keys<K: View, V>(s: Seq<(K, V)>) -> bool {
    forall|i: int, j: int| 0 <= i < j < s.len() ==> s[i].0@ != s[j].0@
}

/// True when some entry of `s` has key view `k`.
pub open spec fn has_key<K: View, V>(s: Seq<(K, V)>, k: K::V) -> bool {
    exists|i: int| 0 <= i < s.len() && s[i].0@ == k
}

/// The finite map described by an entry sequence; on duplicate keys the
/// later entry wins.
pub open spec fn table_map<K: View, V: View>(s: Seq<(K, V)>) -> Map<K::V, V::V>
    decreases s.len(),
{
    if s.len() == 0 {
        Map::empty()
    } else {
        table_map(s.drop_last()).insert(s.last().0@, s.last().1@)
    }
}

/// The key views of `table_map(s)` are exactly the key views of `s`.
pub proof fn lemma_table_map_domain<K: View, V: View>(s: Seq<(K, V)>, k: K::V)
    ensures
        table_map(s).contains_key(k) <==> has_key(s, k),
    decreases s.len(),
{
    if s.len() == 0 {
    } else {
        let t = s.drop_last();
        lemma_table_map_domain(t, k);
        if s.last().0@ == k {
            assert(s[s.len() - 1].0@ == k);
            assert(has_key(s, k));
        } else {
            if has_key(t, k) {
                let i = choose|i: int| 0 <= i < t.len() && t[i].0@ == k;
                assert(s[i].0@ == k);
                assert(has_key(s, k));
            }
            if has_key(s, k) {
                let i = choose|i: int| 0 <= i < s.len() && s[i].0@ == k;
                assert(t[i].0@ == k);
                assert(has_key(t, k));
            }
        }
    }
}

/// With distinct keys, entry `i` of `s` is what `table_map(s)` holds at
/// its key.
pub proof fn lemma_table_map_index<K: View, V: View>(s: Seq<(K, V)>, i: int)
    requires
        distinct_keys(s),
        0 <= i < s.len(),
    ensures
        table_map(s).contains_key(s[i].0@),
        table_map(s)[s[i].0@] == s[i].1@,
    decreases s.len(),
{
    let t = s.drop_last();
    if i == s.len() - 1 {
    } else {
        assert(distinct_keys(t));
        lemma_table_map_index(t, i);
        assert(s[i].0@ != s.last().0@);
    }
}

/// Overwriting entry `i` with an entry of the same key view updates the
/// map at that key.
pub proof fn lemma_table_map_update<K: View, V: View>(s: Seq<(K, V)>, i: int, p: (K, V))
    requires
        distinct_keys(s),
        0 <= i < s.len(),
        p.0@ == s[i].0@,
    ensures
        distinct_keys(s.update(i, p)),
        table_map(s.update(i, p)) == table_map(s).insert(p.0@, p.1@),
    decreases s.len(),
{
    let su = s.update(i, p);
    assert forall|x: int, y: int| 0 <= x < y < su.len() implies su[x].0@ != su[y].0@ by {
        assert(su[x].0@ == s[x].0@);
        assert(su[y].0@ == s[y].0@);
    }
    let t = s.drop_last();
    if i == s.len() - 1 {
        assert(su.drop_last() =~= t);
        assert(table_map(su) =~= table_map(s).insert(p.0@, p.1@));
    } else {
        assert(distinct_keys(t));
        lemma_table_map_update(t, i, p);
        assert(su.drop_last() =~= t.update(i, p));
        assert(su.last() == s.last());
        assert(s[i].0@ != s.last().0@);
        assert(table_map(su) =~= table_map(s).insert(p.0@, p.1@));
    }
}

/// Appending an entry with a fresh key view inserts it into the map.
pub proof fn lemma_table_map_push<K: View, V: View>(s: Seq<(K, V)>, p: (K, V))
    requires
        distinct_keys(s),
        !has_key(s, p.0@),
    ensures
        distinct_keys(s.push(p)),
        table_map(s.push(p)) == table_map(s).insert(p.0@, p.1@),
{
    let sp = s.push(p);
    assert forall|x: int, y: int| 0 <= x < y < sp.len() implies sp[x].0@ != sp[y].0@ by {
        if y == s.len() {
            assert(sp[x].0@ == s[x].0@);
            if sp[x].0@ == p.0@ {
                assert(has_key(s, p.0@));
            }
        } else {
            assert(sp[x].0@ == s[x].0@);
            assert(sp[y].0@ == s[y].0@);
        }
    }
    assert(sp.drop_last() =~= s);
}

/// Removing entry `i` removes its key from the map.
pub proof fn lemma_table_map_remove<K: View, V: View>(s: Seq<(K, V)>, i: int)
    requires
        distinct_keys(s),
        0 <= i < s.len(),
    ensures
        distinct_keys(s.remove(i)),
        table_map(s.remove(i)) == table_map(s).remove(s[i].0@),
    decreases s.len(),
{
    let k = s[i].0@;
    let sr = s.remove(i);
    assert forall|x: int, y: int| 0 <= x < y < sr.len() implies sr[x].0@ != sr[y].0@ by {
        let sx: int = if x < i { x } else { x + 1 };
        let sy: int = if y < i { y } else { y + 1 };
        assert(sr[x].0@ == s[sx].0@);
        assert(sr[y].0@ == s[sy].0@);
    }
    let t = s.drop_last();
    if i == s.len() - 1 {
        assert(sr =~= t);
        assert(!has_key(t, k)) by {
            if has_key(t, k) {
                let j = choose|j: int| 0 <= j < t.len() && t[j].0@ == k;
                assert(s[j].0@ == s[i].0@);
            }
        }
        lemma_table_map_domain(t, k);
        assert(table_map(sr) =~= table_map(s).remove(k));
    } else {
        assert(distinct_keys(t));
        lemma_table_map_remove(t, i);
        assert(sr.drop_last() =~= t.remove(i));
        assert(sr.last() == s.last());
        assert(s[i].0@ != s.last().0@);
        assert(table_map(sr) =~= table_map(s).remove(k));
    }
}

/// One storage map of the core: entries with pairwise-distinct keys,
/// viewed as the finite `Map` they describe.
pub struct Table<K, V> {
    pub entries: Vec<(K, V)>,
}

impl<K: ViewKey, V: View> View for Table<K, V> {
    type V = Map<K::V, V::V>;

    open spec fn view(&self) -> Map<K::V, V::V> {
        table_map(self.entries@)
    }
}

impl<K: ViewKey, V: View> Table<K, V> {
    /// The raw entry sequence behind the map view.
    pub open spec fn kvs(&self) -> Seq<(K, V)> {
        self.entries@
    }

    /// Keys are pairwise distinct.
    pub open spec fn wf(&self) -> bool {
        distinct_keys(self.entries@)
    }

    pub fn new() -> (t: Self)
        ensures
            t.wf(),
            t@ == Map::<K::V, V::V>::empty(),
            t.kvs() == Seq::<(K, V)>::empty(),
    {
        Table { entries: Vec::new() }
    }

    /// Index of the entry whose key view matches `key`, if any.
    fn index_of(&self, key: &K) -> (r: Option<usize>)
        ensures
            match r {
                Some(i) => i < self.entries@.len() && self.entries@[i as int].0@ == key@,
                None => !has_key(self.entries@, key@),
            },
    {
        let n = self.entries.len();
        let mut i: usize = 0;
        while i < n
            invariant
                i <= n,
                n == self.entries@.len(),
                forall|j: int| 0 <= j < i ==> self.entries@[j].0@ != key@,
            decreases n - i,
        {
            if self.entries[i].0.view_eq(key) {
                return Some(i);
            }
            i = i + 1;
        }
        None
    }

    pub fn contains_key(&self, key: &K) -> (r: bool)
        ensures
            r == self@.contains_key(key@),
    {
        proof {
            lemma_table_map_domain(self.entries@, key@);
        }
        match self.index_of(key) {
            Some(i) => {
                proof {
                    assert(has_key(self.entries@, key@));
                }
                true
            },
            None => false,
        }
    }

    pub fn get(&self, key: &K) -> (r: Option<&V>)
        requires
            self.wf(),
        ensures
            r is Some <==> self@.contains_key(key@),
            r matches Some(v) ==> v@ == self@[key@],
    {
        proof {
            lemma_table_map_domain(self.entries@, key@);
        }
        match self.index_of(key) {
            Some(i) => {
                proof {
                    assert(has_key(self.entries@, key@));
                    lemma_table_map_index(self.entries@, i as int);
                }
                Some(&self.entries[i].1)
            },
            None => None,
        }
    }

    /// Installs `key -> value`, overwriting any entry with the same key
    /// view; the entry sequence either gains one entry at the end or is
    /// updated in place.
    pub fn insert(&mut self, key: K, value: V)
        requires
            old(self).wf(),
        ensures
            final(self).wf(),
            final(self)@ == old(self)@.insert(key@, value@),
            old(self)@.contains_key(key@) ==> (exists|i: int|
                0 <= i < old(self).kvs().len() && old(self).kvs()[i].0@ == key@
                    && final(self).kvs() == old(self).kvs().update(i, (key, value))),
            !old(self)@.contains_key(key@) ==> final(self).kvs() == old(self).kvs().push(
                (key, value),
            ),
    {
        proof {
            lemma_table_map_domain(self.entries@, key@);
        }
        match self.index_of(&key) {
            Some(i) => {
                proof {
                    assert(has_key(self.entries@, key@));
                    lemma_table_map_update(self.entries@, i as int, (key, value));
                }
                self.entries[i] = (key, value);
                proof {
                    let j = i as int;
                    assert(0 <= j < old(self).kvs().len() && old(self).kvs()[j].0@ == key@
                        && self.kvs() == old(self).kvs().update(j, (key, value)));
                }
            },
            None => {
                proof {
                    lemma_table_map_push(self.entries@, (key, value));
                }
                self.entries.push((key, value));
            },
        }
    }

    /// Removes the entry with this key view, returning its value; a miss
    /// leaves the table untouched.
    pub fn remove(&mut self, key: &K) -> (r: Option<V>)
        requires
            old(self).wf(),
        ensures
            final(self).wf(),
            final(self)@ == old(self)@.remove(key@),
            r is Some <==> old(self)@.contains_key(key@),
            r matches Some(v) ==> v@ == old(self)@[key@],
            old(self)@.contains_key(key@) ==> (exists|i: int|
                0 <= i < old(self).kvs().len() && old(self).kvs()[i].0@ == key@
                    && final(self).kvs() == old(self).kvs().remove(i)),
            !old(self)@.contains_key(key@) ==> *final(self) == *old(self),
    {
        proof {
            lemma_table_map_domain(self.entries@, key@);
        }
        match self.index_of(key) {
            Some(i) => {
                proof {
                    assert(has_key(self.entries@, key@));
                    lemma_table_map_index(self.entries@, i as int);
                    lemma_table_map_remove(self.entries@, i as int);
                }
                let pair = self.entries.remove(i);
                proof {
                    let j = i as int;
                    assert(0 <= j < old(self).kvs().len() && old(self).kvs()[j].0@ == key@
                        && self.kvs() == old(self).kvs().remove(j));
                }
                Some(pair.1)
            },
            None => {
                proof {
                    assert(old(self)@.remove(key@) =~= old(self)@);
                }
                None
            },
        }
    }
}

} // verus!
