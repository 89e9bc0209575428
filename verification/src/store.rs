//! An address-keyed store: the model of one flat account namespace.
//!
//! The ledger keeps its accounts and its trade records in `Store`s.  A store
//! is a vector of key/value entries with pairwise-distinct keys, viewed as a
//! `Map<Address, V>`; every operation states its effect on that map, so
//! callers reason about the namespace pointwise and never about entry order.

use vstd::prelude::*;
use crate::addr::Address;

verus! {

/// An address-keyed store with pairwise-distinct keys.
pub struct Store<V> {
    pub entries: Vec<(Address, V)>,
}

/// The entries of `s` read as a finite map, later entries taking precedence.
/// With distinct keys the order never matters.
pub open spec fn map_of<V>(s: Seq<(Address, V)>) -> Map<Address, V>
    decreases s.len(),
{
    if s.len() == 0 {
        Map::empty()
    } else {
        map_of(s.drop_last()).insert(s.last().0, s.last().1)
    }
}

/// No two entries of `s` share a key.
pub open spec fn unique_keys<V>(s: Seq<(Address, V)>) -> bool {
    forall|i: int, j: int|
        0 <= i < j < s.len() ==> (#[trigger] s[i]).0 != (#[trigger] s[j]).0
}

/// An address is in the map exactly when some entry carries it.
proof fn lemma_map_of_contains<V>(s: Seq<(Address, V)>, a: Address)
    ensures
        map_of(s).contains_key(a) <==> exists|i: int|
            0 <= i < s.len() && (#[trigger] s[i]).0 == a,
    decreases s.len(),
{
    if s.len() > 0 {
        lemma_map_of_contains(s.drop_last(), a);
        if map_of(s).contains_key(a) {
            if s.last().0 == a {
                assert(s[s.len() - 1].0 == a);
            } else {
                let i = choose|i: int|
                    0 <= i < s.drop_last().len() && (#[trigger] s.drop_last()[i]).0 == a;
                assert(s[i].0 == a);
            }
        }
        if exists|i: int| 0 <= i < s.len() && (#[trigger] s[i]).0 == a {
            let i = choose|i: int| 0 <= i < s.len() && (#[trigger] s[i]).0 == a;
            if i < s.len() - 1 {
                assert(s.drop_last()[i].0 == a);
            }
        }
    }
}

/// With distinct keys, the entry at index `i` is what the map returns for
/// its key.
proof fn lemma_map_of_index<V>(s: Seq<(Address, V)>, i: int)
    requires
        unique_keys(s),
        0 <= i < s.len(),
    ensures
        map_of(s).contains_key(s[i].0),
        map_of(s)[s[i].0] == s[i].1,
    decreases s.len(),
{
    if i == s.len() - 1 {
    } else {
        assert(unique_keys(s.drop_last()));
        assert(s.drop_last()[i] == s[i]);
        lemma_map_of_index(s.drop_last(), i);
        assert(s[i].0 != s.last().0);
    }
}

/// Replacing the value at index `i` is a map insert at that entry's key.
proof fn lemma_map_of_update<V>(s: Seq<(Address, V)>, i: int, v: V)
    requires
        unique_keys(s),
        0 <= i < s.len(),
    ensures
        map_of(s.update(i, (s[i].0, v))) == map_of(s).insert(s[i].0, v),
    decreases s.len(),
{
    let a = s[i].0;
    let t = s.update(i, (a, v));
    if i == s.len() - 1 {
        assert(t.drop_last() =~= s.drop_last());
        assert(t.last() == (a, v));
        assert(map_of(s.drop_last()).insert(a, s[i].1).insert(a, v) =~= map_of(
            s.drop_last(),
        ).insert(a, v));
    } else {
        assert(unique_keys(s.drop_last()));
        assert(s.drop_last()[i] == s[i]);
        lemma_map_of_update(s.drop_last(), i, v);
        assert(t.drop_last() =~= s.drop_last().update(i, (a, v)));
        assert(t.last() == s.last());
        assert(a != s.last().0);
        assert(map_of(s.drop_last()).insert(a, v).insert(s.last().0, s.last().1) =~= map_of(
            s.drop_last(),
        ).insert(s.last().0, s.last().1).insert(a, v));
    }
}

/// Removing the entry at index `i` is a map remove of that entry's key.
proof fn lemma_map_of_remove<V>(s: Seq<(Address, V)>, i: int)
    requires
        unique_keys(s),
        0 <= i < s.len(),
    ensures
        map_of(s.remove(i)) == map_of(s).remove(s[i].0),
    decreases s.len(),
{
    let a = s[i].0;
    if i == s.len() - 1 {
        assert(s.remove(i) =~= s.drop_last());
        lemma_map_of_contains(s.drop_last(), a);
        assert(forall|j: int|
            0 <= j < s.drop_last().len() ==> (#[trigger] s.drop_last()[j]).0 != a);
        assert(!map_of(s.drop_last()).contains_key(a));
        assert(map_of(s.drop_last()).insert(a, s[i].1).remove(a) =~= map_of(s.drop_last()));
    } else {
        assert(unique_keys(s.drop_last()));
        assert(s.drop_last()[i] == s[i]);
        lemma_map_of_remove(s.drop_last(), i);
        assert(s.remove(i).drop_last() =~= s.drop_last().remove(i));
        assert(s.remove(i).last() == s.last());
        assert(a != s.last().0);
        assert(map_of(s.drop_last()).remove(a).insert(s.last().0, s.last().1) =~= map_of(
            s.drop_last(),
        ).insert(s.last().0, s.last().1).remove(a));
    }
}

impl<V> View for Store<V> {
    type V = Map<Address, V>;

    open spec fn view(&self) -> Map<Address, V> {
        map_of(self.entries@)
    }
}

impl<V> Store<V> {
    /// The store's structural invariant: no key appears twice.
    pub open spec fn wf(self) -> bool {
        unique_keys(self.entries@)
    }
}

impl<V: Copy> Store<V> {
    /// An empty store.
    pub fn new() -> (s: Store<V>)
        ensures
            s.wf(),
            s@ == Map::<Address, V>::empty(),
    {
        Store { entries: Vec::new() }
    }

    /// The index holding `a`, if any entry does.
    fn find_index(&self, a: Address) -> (r: Option<usize>)
        ensures
            match r {
                Some(i) => i < self.entries@.len() && self.entries@[i as int].0 == a,
                None => forall|i: int|
                    0 <= i < self.entries@.len() ==> (#[trigger] self.entries@[i]).0 != a,
            },
    {
        let mut i: usize = 0;
        while i < self.entries.len()
            invariant
                i <= self.entries@.len(),
                forall|k: int| 0 <= k < i ==> (#[trigger] self.entries@[k]).0 != a,
            decreases self.entries@.len() - i,
        {
            if self.entries[i].0 == a {
                return Some(i);
            }
            i = i + 1;
        }
        None
    }

    /// Whether the store holds `a`.
    pub fn contains(&self, a: Address) -> (r: bool)
        ensures
            r == self@.contains_key(a),
    {
        proof {
            lemma_map_of_contains(self.entries@, a);
        }
        match self.find_index(a) {
            Some(_) => true,
            None => false,
        }
    }

    /// The value stored under `a`, if any.
    pub fn get(&self, a: Address) -> (r: Option<V>)
        requires
            self.wf(),
        ensures
            r == (if self@.contains_key(a) {
                Some(self@[a])
            } else {
                None::<V>
            }),
    {
        proof {
            lemma_map_of_contains(self.entries@, a);
        }
        match self.find_index(a) {
            Some(i) => {
                proof {
                    lemma_map_of_index(self.entries@, i as int);
                }
                Some(self.entries[i].1)
            },
            None => None,
        }
    }

    /// Adds a binding for a key not yet present.
    pub fn insert(&mut self, a: Address, v: V)
        requires
            old(self).wf(),
            !old(self)@.contains_key(a),
        ensures
            final(self).wf(),
            final(self)@ == old(self)@.insert(a, v),
    {
        proof {
            lemma_map_of_contains(self.entries@, a);
        }
        self.entries.push((a, v));
        proof {
            assert(self.entries@.drop_last() =~= old(self).entries@);
            assert(self.entries@.last() == (a, v));
            assert(forall|k: int|
                0 <= k < old(self).entries@.len() ==> (#[trigger] old(self).entries@[k]).0 != a);
        }
    }

    /// Replaces the value bound to a key already present.
    pub fn update_value(&mut self, a: Address, v: V)
        requires
            old(self).wf(),
            old(self)@.contains_key(a),
        ensures
            final(self).wf(),
            final(self)@ == old(self)@.insert(a, v),
    {
        proof {
            lemma_map_of_contains(self.entries@, a);
        }
        match self.find_index(a) {
            Some(i) => {
                proof {
                    lemma_map_of_update(self.entries@, i as int, v);
                }
                self.entries[i] = (a, v);
                proof {
                    assert(final(self).entries@ =~= old(self).entries@.update(
                        i as int,
                        (a, v),
                    ));
                    assert(forall|p: int, q: int|
                        0 <= p < q < self.entries@.len() ==> (#[trigger] self.entries@[p]).0 != (
                        #[trigger] self.entries@[q]).0) by {
                        assert(forall|p: int|
                            0 <= p < self.entries@.len() ==> (#[trigger] self.entries@[p]).0
                                == old(self).entries@[p].0);
                    }
                }
            },
            None => {
                proof {
                    assert(false);
                }
            },
        }
    }

    /// Drops the binding of a key already present.
    pub fn remove(&mut self, a: Address)
        requires
            old(self).wf(),
            old(self)@.contains_key(a),
        ensures
            final(self).wf(),
            final(self)@ == old(self)@.remove(a),
    {
        proof {
            lemma_map_of_contains(self.entries@, a);
        }
        match self.find_index(a) {
            Some(i) => {
                proof {
                    lemma_map_of_remove(self.entries@, i as int);
                }
                let _ = self.entries.remove(i);
                proof {
                    assert(forall|p: int, q: int|
                        0 <= p < q < self.entries@.len() ==> (#[trigger] self.entries@[p]).0 != (
                        #[trigger] self.entries@[q]).0) by {
                        assert(forall|p: int|
                            0 <= p < self.entries@.len() ==> self.entries@[p] == (if p < i as int {
                                old(self).entries@[p]
                            } else {
                                old(self).entries@[p + 1]
                            }));
                    }
                }
            },
            None => {
                proof {
                    assert(false);
                }
            },
        }
    }
}

} // verus!
