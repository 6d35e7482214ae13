//! A map from string keys to values, kept as a list of entries in the
//! order in which their keys were first given (the order in which a
//! configuration file writes them).
use crate::text::{chars_eq, string_chars};
use vstd::prelude::*;

verus! {

/// No key occurs twice.
pub open spec fn keys_distinct<V>(e: Seq<(String, V)>) -> bool {
    forall|i: int, j: int| 0 <= i < j < e.len() ==> #[trigger] e[i].0@ != #[trigger] e[j].0@
}

/// The map the entries form.
pub open spec fn map_of<V>(e: Seq<(String, V)>) -> Map<Seq<char>, V> {
    Map::new(
        |k: Seq<char>| exists|i: int| 0 <= i < e.len() && #[trigger] e[i].0@ == k,
        |k: Seq<char>| e[index_of(e, k)].1,
    )
}

/// An index of an entry with key `k`.
pub open spec fn index_of<V>(e: Seq<(String, V)>, k: Seq<char>) -> int {
    choose|i: int| 0 <= i < e.len() && #[trigger] e[i].0@ == k
}

pub proof fn lemma_map_of_index<V>(e: Seq<(String, V)>, idx: int)
    requires
        keys_distinct(e),
        0 <= idx < e.len(),
    ensures
        map_of(e).contains_key(e[idx].0@),
        map_of(e)[e[idx].0@] == e[idx].1,
{
    let k = e[idx].0@;
    assert(exists|i: int| 0 <= i < e.len() && #[trigger] e[i].0@ == k);
    let c = index_of(e, k);
    if c < idx {
        assert(e[c].0@ != e[idx].0@);
    } else if c > idx {
        assert(e[idx].0@ != e[c].0@);
    }
}

/// A map from string keys to values, its entries in the order in which
/// their keys were first inserted.
pub struct KeyedList<V> {
    entries: Vec<(String, V)>,
}

impl<V> View for KeyedList<V> {
    type V = Seq<(String, V)>;

    /// The entries, in the order in which their keys were first inserted.
    closed spec fn view(&self) -> Seq<(String, V)> {
        self.entries@
    }
}

impl<V> KeyedList<V> {
    #[verifier::type_invariant]
    spec fn inv(self) -> bool {
        keys_distinct(self.entries@)
    }

    /// The map the entries form.
    pub open spec fn as_map(&self) -> Map<Seq<char>, V> {
        map_of(self@)
    }

    /// The empty map.
    pub fn new() -> (r: Self)
        ensures
            r@.len() == 0,
    {
        KeyedList { entries: Vec::new() }
    }

    /// The entries, in the order in which their keys were first inserted.
    pub fn entries(&self) -> (r: &Vec<(String, V)>)
        ensures
            r@ == self@,
            keys_distinct(r@),
    {
        proof {
            use_type_invariant(self);
        }
        &self.entries
    }

    /// The number of entries.
    pub fn len(&self) -> (n: usize)
        ensures
            n == self@.len(),
    {
        self.entries.len()
    }

    /// Where `key` stands among the entries, if the map has it.
    fn position(&self, key: &Vec<char>) -> (r: Option<usize>)
        ensures
            match r {
                Some(i) => i < self@.len() && self@[i as int].0@ == key@,
                None => forall|j: int| 0 <= j < self@.len() ==> #[trigger] self@[j].0@ != key@,
            },
    {
        let mut i: usize = 0;
        while i < self.entries.len()
            invariant
                i <= self.entries@.len(),
                forall|j: int| 0 <= j < i ==> #[trigger] self.entries@[j].0@ != key@,
            decreases self.entries@.len() - i,
        {
            if chars_eq(&string_chars(&self.entries[i].0), key) {
                return Some(i);
            }
            i = i + 1;
        }
        None
    }

    /// The value of `key`, if the map has it.
    pub fn get(&self, key: &str) -> (r: Option<&V>)
        ensures
            match r {
                Some(v) => self.as_map().contains_key(key@) && *v == self.as_map()[key@],
                None => !self.as_map().contains_key(key@),
            },
    {
        proof {
            use_type_invariant(self);
        }
        let k = crate::text::chars_of(key);
        match self.position(&k) {
            Some(i) => {
                proof {
                    lemma_map_of_index(self.entries@, i as int);
                }
                Some(&self.entries[i].1)
            },
            None => None,
        }
    }

    /// Sets the value of `key` to `value`. A key the map has keeps its place;
    /// a new key goes after all the others.
    pub fn insert(&mut self, key: String, value: V)
        ensures
            final(self).as_map() == old(self).as_map().insert(key@, value),
            (exists|i: int| 0 <= i < old(self)@.len() && #[trigger] old(self)@[i].0@ == key@)
                ==> final(self)@ == old(self)@.update(index_of(old(self)@, key@), (key, value)),
            !(exists|i: int| 0 <= i < old(self)@.len() && #[trigger] old(self)@[i].0@ == key@)
                ==> final(self)@ == old(self)@.push((key, value)),
    {
        proof {
            use_type_invariant(&*self);
        }
        let ghost before = self.entries@;
        let kc = string_chars(&key);
        let found = self.position(&kc);
        let mut entries: Vec<(String, V)> = Vec::new();
        std::mem::swap(&mut entries, &mut self.entries);
        match found {
            Some(p) => {
                proof {
                    let c = index_of(before, key@);
                    assert(before[p as int].0@ == key@);
                    if c < p {
                        assert(before[c].0@ != before[p as int].0@);
                    } else if c > p {
                        assert(before[p as int].0@ != before[c].0@);
                    }
                }
                entries.set(p, (key, value));
                proof {
                    let after = entries@;
                    assert forall|a: int, b: int| 0 <= a < b < after.len() implies #[trigger] after[a].0@
                        != #[trigger] after[b].0@ by {
                        assert(before[a].0@ != before[b].0@);
                    }
                    lemma_map_update(before, after, p as int);
                }
            },
            None => {
                entries.push((key, value));
                proof {
                    let after = entries@;
                    assert(after.drop_last() =~= before);
                    assert forall|a: int, b: int| 0 <= a < b < after.len() implies #[trigger] after[a].0@
                        != #[trigger] after[b].0@ by {
                        if b < before.len() {
                            assert(before[a].0@ != before[b].0@);
                        } else {
                            assert(before[a].0@ != kc@);
                        }
                    }
                    lemma_map_push(before, after);
                }
            },
        }
        self.entries = entries;
    }
}

proof fn lemma_map_update<V>(before: Seq<(String, V)>, after: Seq<(String, V)>, p: int)
    requires
        keys_distinct(before),
        keys_distinct(after),
        0 <= p < before.len(),
        after == before.update(p, after[p]),
        after[p].0@ == before[p].0@,
    ensures
        map_of(after) == map_of(before).insert(after[p].0@, after[p].1),
{
    let m = map_of(before);
    let m2 = m.insert(after[p].0@, after[p].1);
    assert forall|k: Seq<char>| #[trigger] map_of(after).contains_key(k) <==> m2.contains_key(k) by {
        if map_of(after).contains_key(k) {
            let a = choose|a: int| 0 <= a < after.len() && #[trigger] after[a].0@ == k;
            if a != p {
                assert(before[a].0@ == k);
            }
        }
        if m.contains_key(k) {
            let a = choose|a: int| 0 <= a < before.len() && #[trigger] before[a].0@ == k;
            assert(after[a].0@ == k);
        }
        if k == after[p].0@ {
            assert(after[p].0@ == k);
        }
    }
    assert forall|k: Seq<char>| #[trigger] map_of(after).contains_key(k) implies map_of(after)[k] == m2[k] by {
        let a = choose|a: int| 0 <= a < after.len() && #[trigger] after[a].0@ == k;
        lemma_map_of_index(after, a);
        if a != p {
            lemma_map_of_index(before, a);
            if a < p {
                assert(after[a].0@ != after[p].0@);
            } else {
                assert(after[p].0@ != after[a].0@);
            }
        }
    }
    assert(map_of(after) =~= m2);
}

proof fn lemma_map_push<V>(before: Seq<(String, V)>, after: Seq<(String, V)>)
    requires
        keys_distinct(before),
        keys_distinct(after),
        after.len() == before.len() + 1,
        after.drop_last() == before,
    ensures
        map_of(after) == map_of(before).insert(after.last().0@, after.last().1),
{
    let p = before.len() as int;
    let k0 = after[p].0@;
    let m = map_of(before);
    let m2 = m.insert(k0, after[p].1);
    assert forall|a: int| 0 <= a < before.len() implies #[trigger] after[a] == before[a] by {
        assert(after.drop_last()[a] == after[a]);
    }
    assert forall|k: Seq<char>| #[trigger] map_of(after).contains_key(k) <==> m2.contains_key(k) by {
        if map_of(after).contains_key(k) {
            let a = choose|a: int| 0 <= a < after.len() && #[trigger] after[a].0@ == k;
            if a < p {
                assert(before[a].0@ == k);
            }
        }
        if m.contains_key(k) {
            let a = choose|a: int| 0 <= a < before.len() && #[trigger] before[a].0@ == k;
            assert(after[a].0@ == k);
        }
        if k == k0 {
            assert(after[p].0@ == k);
        }
    }
    assert forall|k: Seq<char>| #[trigger] map_of(after).contains_key(k) implies map_of(after)[k] == m2[k] by {
        let a = choose|a: int| 0 <= a < after.len() && #[trigger] after[a].0@ == k;
        lemma_map_of_index(after, a);
        if a != p {
            lemma_map_of_index(before, a);
            assert(after[a].0@ != after[p].0@);
        }
    }
    assert(map_of(after) =~= m2);
}

} // verus!
