//! A map from strings to strings that remembers the order in which its keys
//! were first inserted.

use vstd::prelude::*;
use crate::text::str_eq;

verus! {

/// A key with its value, as character sequences.
pub type Pair = (Seq<char>, Seq<char>);

/// Whether some pair of `pairs` has the key `key`.
pub open spec fn has_key(pairs: Seq<Pair>, key: Seq<char>) -> bool {
    exists|i: int| 0 <= i < pairs.len() && (#[trigger] pairs[i]).0 == key
}

/// The index of the first pair of `pairs` whose key is `key`.
pub open spec fn index_of_key(pairs: Seq<Pair>, key: Seq<char>) -> int {
    choose|i: int| 0 <= i < pairs.len() && (#[trigger] pairs[i]).0 == key
}

/// No key occurs in two pairs.
pub open spec fn distinct_keys(pairs: Seq<Pair>) -> bool {
    forall|i: int, j: int|
        0 <= i < pairs.len() && 0 <= j < pairs.len() && i != j ==> (#[trigger] pairs[i]).0 != (
        #[trigger] pairs[j]).0
}

/// The mapping that a sequence of pairs stands for.
pub open spec fn pairs_to_map(pairs: Seq<Pair>) -> Map<Seq<char>, Seq<char>> {
    Map::new(|k: Seq<char>| has_key(pairs, k), |k: Seq<char>| pairs[index_of_key(pairs, k)].1)
}

/// `pairs` with `key` bound to `value`: in place where the key is present,
/// at the end where it is new.
pub open spec fn upsert(pairs: Seq<Pair>, key: Seq<char>, value: Seq<char>) -> Seq<Pair> {
    if has_key(pairs, key) {
        pairs.update(index_of_key(pairs, key), (key, value))
    } else {
        pairs.push((key, value))
    }
}

/// `pairs` without the pair whose key is `key`, the others in their order.
pub open spec fn without_key(pairs: Seq<Pair>, key: Seq<char>) -> Seq<Pair> {
    if has_key(pairs, key) {
        pairs.remove(index_of_key(pairs, key))
    } else {
        pairs
    }
}

/// Binding a key in a sequence of distinct keys is `Map::insert` on the
/// mapping, and keeps the keys distinct.
pub proof fn lemma_upsert(pairs: Seq<Pair>, key: Seq<char>, value: Seq<char>)
    requires
        distinct_keys(pairs),
    ensures
        distinct_keys(upsert(pairs, key, value)),
        pairs_to_map(upsert(pairs, key, value)) == pairs_to_map(pairs).insert(key, value),
{
    let after = upsert(pairs, key, value);
    if has_key(pairs, key) {
        let at = index_of_key(pairs, key);
        assert forall|k: Seq<char>| has_key(after, k) == (k == key || has_key(pairs, k)) by {
            if has_key(after, k) {
                let i = index_of_key(after, k);
                assert(after[i].0 == pairs[i].0);
            }
            if has_key(pairs, k) {
                let i = index_of_key(pairs, k);
                assert(after[i].0 == k);
            }
            assert(after[at].0 == key);
        }
        assert forall|k: Seq<char>| has_key(after, k) implies #[trigger] pairs_to_map(after)[k]
            == pairs_to_map(pairs).insert(key, value)[k] by {
            let i = index_of_key(after, k);
            assert(after[i].0 == pairs[i].0);
            if k != key {
                assert(pairs[index_of_key(pairs, k)].0 == pairs[i].0);
            }
        }
    } else {
        let at = pairs.len() as int;
        assert forall|k: Seq<char>| has_key(after, k) == (k == key || has_key(pairs, k)) by {
            if has_key(after, k) {
                let i = index_of_key(after, k);
                if i < at {
                    assert(pairs[i].0 == k);
                }
            }
            if has_key(pairs, k) {
                let i = index_of_key(pairs, k);
                assert(after[i].0 == k);
            }
            assert(after[at].0 == key);
        }
        assert forall|k: Seq<char>| has_key(after, k) implies #[trigger] pairs_to_map(after)[k]
            == pairs_to_map(pairs).insert(key, value)[k] by {
            let i = index_of_key(after, k);
            if i < at {
                assert(pairs[i].0 == k);
                assert(pairs[index_of_key(pairs, k)].0 == pairs[i].0);
            }
        }
    }
    assert(pairs_to_map(after) =~= pairs_to_map(pairs).insert(key, value));
}

/// Dropping a key from a sequence of distinct keys is `Map::remove` on the
/// mapping, and keeps the keys distinct.
pub proof fn lemma_without_key(pairs: Seq<Pair>, key: Seq<char>)
    requires
        distinct_keys(pairs),
    ensures
        distinct_keys(without_key(pairs, key)),
        pairs_to_map(without_key(pairs, key)) == pairs_to_map(pairs).remove(key),
{
    let after = without_key(pairs, key);
    if has_key(pairs, key) {
        let at = index_of_key(pairs, key);
        assert forall|i: int| 0 <= i < after.len() implies (#[trigger] after[i]) == pairs[if i
            < at {
            i
        } else {
            i + 1
        }] by {}
        assert forall|k: Seq<char>| has_key(after, k) == (k != key && has_key(pairs, k)) by {
            if has_key(after, k) {
                let i = index_of_key(after, k);
                let j = if i < at { i } else { i + 1 };
                assert(pairs[j].0 == k);
            }
            if k != key && has_key(pairs, k) {
                let j = index_of_key(pairs, k);
                let i = if j < at { j } else { j - 1 };
                assert(after[i].0 == k);
            }
        }
        assert forall|k: Seq<char>| has_key(after, k) implies #[trigger] pairs_to_map(after)[k]
            == pairs_to_map(pairs)[k] by {
            let i = index_of_key(after, k);
            let j = if i < at { i } else { i + 1 };
            assert(pairs[j].0 == k);
            assert(pairs[index_of_key(pairs, k)].0 == pairs[j].0);
        }
        assert forall|i: int, j: int|
            0 <= i < after.len() && 0 <= j < after.len() && i != j implies (#[trigger] after[i]).0
            != (#[trigger] after[j]).0 by {
            let a = if i < at { i } else { i + 1 };
            let b = if j < at { j } else { j + 1 };
            assert(pairs[a].0 != pairs[b].0);
        }
    }
    assert(pairs_to_map(after) =~= pairs_to_map(pairs).remove(key));
}

/// What a vector of string pairs stands for.
pub open spec fn pairs_view(pairs: Seq<(String, String)>) -> Seq<Pair> {
    pairs.map_values(|p: (String, String)| (p.0@, p.1@))
}

/// The pairs left when `pairs` are bound one after the other: a key that
/// comes again keeps its place and takes the later value.
pub open spec fn bind_all(pairs: Seq<Pair>) -> Seq<Pair>
    decreases pairs.len(),
{
    if pairs.len() == 0 {
        Seq::empty()
    } else {
        upsert(bind_all(pairs.drop_last()), pairs.last().0, pairs.last().1)
    }
}

/// Pairs with distinct keys are what binding them one after the other
/// leaves.
pub proof fn lemma_bind_all_of_distinct(pairs: Seq<Pair>)
    requires
        distinct_keys(pairs),
    ensures
        bind_all(pairs) == pairs,
    decreases pairs.len(),
{
    if pairs.len() > 0 {
        let front = pairs.drop_last();
        lemma_bind_all_of_distinct(front);
        if has_key(front, pairs.last().0) {
            let i = index_of_key(front, pairs.last().0);
            assert(pairs[i].0 == front[i].0);
            assert(pairs[pairs.len() - 1].0 == pairs.last().0);
        }
        assert(front.push(pairs.last()) =~= pairs);
    }
}

#[derive(Debug)]
struct Entry {
    key: String,
    value: String,
}

spec fn pairs_of(entries: Seq<Entry>) -> Seq<Pair> {
    Seq::new(entries.len(), |i: int| (entries[i].key@, entries[i].value@))
}

/// An insertion-ordered map from `String` to `String`.
#[derive(Debug)]
pub struct StringMap {
    entries: Vec<Entry>,
}

impl View for StringMap {
    type V = Map<Seq<char>, Seq<char>>;

    closed spec fn view(&self) -> Map<Seq<char>, Seq<char>> {
        pairs_to_map(self.pairs())
    }
}

impl StringMap {
    /// The pairs of the map in the order in which their keys were first
    /// inserted.
    pub closed spec fn pairs(&self) -> Seq<Pair> {
        pairs_of(self.entries@)
    }

    /// The invariant of the type: no key is held twice.
    #[verifier::type_invariant]
    pub closed spec fn wf(&self) -> bool {
        distinct_keys(self.pairs())
    }

    /// A well-formed map holds no key twice.
    pub proof fn lemma_wf(&self)
        requires
            self.wf(),
        ensures
            distinct_keys(self.pairs()),
    {
    }

    /// How the mapping and the ordered pairs of a map relate.
    pub proof fn lemma_view(&self)
        ensures
            self@ == pairs_to_map(self.pairs()),
    {
    }

    pub fn new() -> (r: Self)
        ensures
            r@ == Map::<Seq<char>, Seq<char>>::empty(),
            r.pairs() == Seq::<Pair>::empty(),
    {
        let r = StringMap { entries: Vec::new() };
        proof {
            assert(r.pairs() =~= Seq::<Pair>::empty());
            assert(r@ =~= Map::<Seq<char>, Seq<char>>::empty());
        }
        r
    }

    pub fn len(&self) -> (n: usize)
        ensures
            n == self.pairs().len(),
    {
        self.entries.len()
    }

    pub fn is_empty(&self) -> (r: bool)
        ensures
            r == (self.pairs().len() == 0),
            r == self@.dom().is_empty(),
    {
        proof {
            if self.entries@.len() > 0 {
                assert(self.pairs()[0].0 == self.entries@[0].key@);
                assert(has_key(self.pairs(), self.entries@[0].key@));
                assert(self@.dom().contains(self.entries@[0].key@));
            } else {
                assert(self@.dom() =~= Set::empty());
            }
        }
        self.entries.len() == 0
    }

    fn find(&self, key: &str) -> (r: Option<usize>)
        ensures
            match r {
                Some(i) => i < self.pairs().len() && self.pairs()[i as int].0 == key@ && i
                    == index_of_key(self.pairs(), key@) && has_key(self.pairs(), key@),
                None => !has_key(self.pairs(), key@),
            },
    {
        proof {
            use_type_invariant(self);
        }
        let mut i: usize = 0;
        while i < self.entries.len()
            invariant
                i <= self.entries@.len(),
                self.wf(),
                forall|j: int| 0 <= j < i ==> (#[trigger] self.pairs()[j]).0 != key@,
            decreases self.entries@.len() - i,
        {
            if str_eq(self.entries[i].key.as_str(), key) {
                proof {
                    assert(self.pairs()[i as int].0 == key@);
                    let c = index_of_key(self.pairs(), key@);
                    assert(self.pairs()[c].0 == self.pairs()[i as int].0);
                }
                return Some(i);
            }
            i += 1;
        }
        None
    }

    pub fn contains_key(&self, key: &str) -> (r: bool)
        ensures
            r == self@.contains_key(key@),
    {
        self.find(key).is_some()
    }

    pub fn get(&self, key: &str) -> (r: Option<&String>)
        ensures
            match r {
                Some(v) => self@.contains_key(key@) && v@ == self@[key@],
                None => !self@.contains_key(key@),
            },
    {
        match self.find(key) {
            Some(i) => Some(&self.entries[i].value),
            None => None,
        }
    }

    /// Binds `key` to `value` and returns the value that the key had.
    pub fn insert(&mut self, key: String, value: String) -> (r: Option<String>)
        ensures
            final(self)@ == old(self)@.insert(key@, value@),
            final(self).pairs() == upsert(old(self).pairs(), key@, value@),
            match r {
                Some(v) => old(self)@.contains_key(key@) && v@ == old(self)@[key@],
                None => !old(self)@.contains_key(key@),
            },
    {
        proof {
            use_type_invariant(&*self);
            lemma_upsert(self.pairs(), key@, value@);
        }
        let found = self.find(key.as_str());
        let ghost before = self.pairs();
        let mut entries: Vec<Entry> = Vec::new();
        std::mem::swap(&mut self.entries, &mut entries);
        let mut entry = Entry { key, value };
        let previous = match found {
            Some(i) => {
                std::mem::swap(&mut entries[i], &mut entry);
                Some(entry.value)
            },
            None => {
                entries.push(entry);
                None
            },
        };
        proof {
            assert(pairs_of(entries@) =~= upsert(before, key@, value@));
        }
        self.entries = entries;
        previous
    }

    /// Drops `key` and returns the value that it had.
    pub fn remove(&mut self, key: &str) -> (r: Option<String>)
        ensures
            final(self)@ == old(self)@.remove(key@),
            final(self).pairs() == without_key(old(self).pairs(), key@),
            match r {
                Some(v) => old(self)@.contains_key(key@) && v@ == old(self)@[key@],
                None => !old(self)@.contains_key(key@),
            },
    {
        proof {
            use_type_invariant(&*self);
            lemma_without_key(self.pairs(), key@);
        }
        match self.find(key) {
            Some(i) => {
                let ghost before = self.pairs();
                let mut entries: Vec<Entry> = Vec::new();
                std::mem::swap(&mut self.entries, &mut entries);
                let entry = entries.remove(i);
                proof {
                    assert(pairs_of(entries@) =~= without_key(before, key@));
                }
                self.entries = entries;
                Some(entry.value)
            },
            None => None,
        }
    }

    /// The `i`-th pair in insertion order, if there is one.
    pub fn get_index(&self, i: usize) -> (r: Option<(&String, &String)>)
        ensures
            match r {
                Some((k, v)) => i < self.pairs().len() && self.pairs()[i as int] == (k@, v@),
                None => i >= self.pairs().len(),
            },
    {
        if i < self.entries.len() {
            Some((&self.entries[i].key, &self.entries[i].value))
        } else {
            None
        }
    }
}

impl Clone for StringMap {
    fn clone(&self) -> (r: Self)
        ensures
            r@ == self@,
            r.pairs() == self.pairs(),
    {
        proof {
            use_type_invariant(self);
        }
        let mut entries: Vec<Entry> = Vec::new();
        let mut i: usize = 0;
        while i < self.entries.len()
            invariant
                i <= self.entries@.len(),
                entries@.len() == i,
                forall|j: int|
                    0 <= j < i ==> (#[trigger] entries@[j]).key@ == self.entries@[j].key@
                        && entries@[j].value@ == self.entries@[j].value@,
            decreases self.entries@.len() - i,
        {
            entries.push(
                Entry { key: self.entries[i].key.clone(), value: self.entries[i].value.clone() },
            );
            i += 1;
        }
        proof {
            assert(pairs_of(entries@) =~= self.pairs());
        }
        StringMap { entries }
    }
}

impl StringMap {
    /// The pairs of the map as a vector, in insertion order.
    pub fn to_vec(&self) -> (r: Vec<(String, String)>)
        ensures
            pairs_view(r@) == self.pairs(),
    {
        let mut pairs: Vec<(String, String)> = Vec::new();
        let mut i: usize = 0;
        while i < self.entries.len()
            invariant
                i <= self.entries@.len(),
                pairs@.len() == i,
                forall|j: int|
                    0 <= j < i ==> (#[trigger] pairs@[j]).0@ == self.entries@[j].key@
                        && pairs@[j].1@ == self.entries@[j].value@,
            decreases self.entries@.len() - i,
        {
            pairs.push((self.entries[i].key.clone(), self.entries[i].value.clone()));
            i += 1;
        }
        proof {
            assert(pairs_view(pairs@) =~= self.pairs());
        }
        pairs
    }

    /// The map that binding `pairs` one after the other leaves.
    pub fn from_pairs(pairs: Vec<(String, String)>) -> (r: Self)
        ensures
            r.pairs() == bind_all(pairs_view(pairs@)),
            r@ == pairs_to_map(bind_all(pairs_view(pairs@))),
    {
        let mut map = StringMap::new();
        let mut i: usize = 0;
        proof {
            assert(pairs_view(pairs@).take(0) =~= Seq::<Pair>::empty());
        }
        while i < pairs.len()
            invariant
                i <= pairs@.len(),
                map.pairs() == bind_all(pairs_view(pairs@).take(i as int)),
            decreases pairs@.len() - i,
        {
            let key = pairs[i].0.clone();
            let value = pairs[i].1.clone();
            proof {
                let next = pairs_view(pairs@).take(i + 1);
                assert(next.drop_last() =~= pairs_view(pairs@).take(i as int));
                assert(next.last() == (key@, value@));
            }
            map.insert(key, value);
            i += 1;
        }
        proof {
            assert(pairs_view(pairs@).take(pairs@.len() as int) =~= pairs_view(pairs@));
        }
        map
    }
}

} // verus!
