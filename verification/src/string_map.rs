//! Maps from strings to strings, as requests and replies carry them. A map
//! holds its pairs in the order in which their keys first came, and no two
//! of its pairs have one key.

use vstd::prelude::*;
use vstd::std_specs::cmp::PartialEqSpecImpl;

verus! {

/// Whether no two of `pairs` have one key.
pub open spec fn unique_keys(pairs: Seq<(Seq<char>, Seq<char>)>) -> bool {
    forall|i: int, j: int|
        0 <= i < pairs.len() && 0 <= j < pairs.len() && i != j ==> pairs[i].0 != pairs[j].0
}

/// Whether the pair at `i` has the key `key`.
pub open spec fn has_key_at(pairs: Seq<(Seq<char>, Seq<char>)>, i: int, key: Seq<char>) -> bool {
    0 <= i < pairs.len() && pairs[i].0 == key
}

/// The map that `pairs` spell: each key with the value beside it.
pub open spec fn map_of(pairs: Seq<(Seq<char>, Seq<char>)>) -> Map<Seq<char>, Seq<char>> {
    Map::new(
        |key: Seq<char>| exists|i: int| has_key_at(pairs, i, key),
        |key: Seq<char>| pairs[choose|i: int| has_key_at(pairs, i, key)].1,
    )
}

/// Where no two pairs have one key, a key has the value of its pair.
pub proof fn lemma_value_at(pairs: Seq<(Seq<char>, Seq<char>)>, i: int, key: Seq<char>)
    requires
        unique_keys(pairs),
        has_key_at(pairs, i, key),
    ensures
        map_of(pairs).contains_key(key),
        map_of(pairs)[key] == pairs[i].1,
{
    let found = choose|j: int| has_key_at(pairs, j, key);
    assert(has_key_at(pairs, found, key));
    if found != i {
        assert(pairs[found].0 == pairs[i].0);
    }
}

/// The pairs after `key` got the value `value`: in place where the key was
/// there, last where it was not.
pub open spec fn pairs_after_insert(
    pairs: Seq<(Seq<char>, Seq<char>)>,
    key: Seq<char>,
    value: Seq<char>,
) -> Seq<(Seq<char>, Seq<char>)> {
    if exists|i: int| has_key_at(pairs, i, key) {
        pairs.update(choose|i: int| has_key_at(pairs, i, key), (key, value))
    } else {
        pairs.push((key, value))
    }
}

/// Giving a key a value is `Map::insert`, and keeps the keys unique.
pub proof fn lemma_insert(pairs: Seq<(Seq<char>, Seq<char>)>, key: Seq<char>, value: Seq<char>)
    requires
        unique_keys(pairs),
    ensures
        unique_keys(pairs_after_insert(pairs, key, value)),
        map_of(pairs_after_insert(pairs, key, value)) == map_of(pairs).insert(key, value),
{
    let after = pairs_after_insert(pairs, key, value);
    let at = if exists|i: int| has_key_at(pairs, i, key) {
        choose|i: int| has_key_at(pairs, i, key)
    } else {
        pairs.len() as int
    };
    assert(has_key_at(after, at, key));
    assert forall|a: int, b: int|
        0 <= a < after.len() && 0 <= b < after.len() && a != b implies after[a].0 != after[b].0 by {
        if a == at {
            if after[b].0 == key {
                assert(has_key_at(pairs, b, key));
                assert(pairs[b].0 == pairs[at].0);
            }
        } else if b == at {
            if after[a].0 == key {
                assert(has_key_at(pairs, a, key));
                assert(pairs[a].0 == pairs[at].0);
            }
        } else {
            assert(after[a] == pairs[a] && after[b] == pairs[b]);
        }
    }
    lemma_value_at(after, at, key);
    let target = map_of(pairs).insert(key, value);
    assert forall|other: Seq<char>|
        (#[trigger] map_of(after).dom().contains(other)) == target.dom().contains(other) && (map_of(
            after,
        ).dom().contains(other) ==> map_of(after)[other] == target[other]) by {
        if other != key {
            if exists|j: int| has_key_at(pairs, j, other) {
                let j = choose|j: int| has_key_at(pairs, j, other);
                assert(has_key_at(after, j, other));
                lemma_value_at(pairs, j, other);
                lemma_value_at(after, j, other);
            } else {
                assert forall|j: int| !has_key_at(after, j, other) by {
                    if has_key_at(after, j, other) {
                        assert(has_key_at(pairs, j, other));
                    }
                }
            }
        }
    }
    lemma_same_maps(map_of(after), target);
}

/// Two maps with the same keys and the same value for each key are one
/// map.
pub proof fn lemma_same_maps(a: Map<Seq<char>, Seq<char>>, b: Map<Seq<char>, Seq<char>>)
    requires
        forall|key: Seq<char>|
            (#[trigger] a.dom().contains(key)) == b.dom().contains(key) && (a.dom().contains(key)
                ==> a[key] == b[key]),
    ensures
        a == b,
{
    assert(a.dom() =~= b.dom());
    assert(a =~= b);
}

/// A key that no pair has is no key of the map.
pub proof fn lemma_no_value(pairs: Seq<(Seq<char>, Seq<char>)>, key: Seq<char>)
    requires
        forall|j: int| !has_key_at(pairs, j, key),
    ensures
        !map_of(pairs).contains_key(key),
{
}

/// A map from strings to strings.
#[derive(Debug, Eq)]
pub struct StringMap {
    pairs: Vec<(String, String)>,
}

impl View for StringMap {
    type V = Map<Seq<char>, Seq<char>>;

    closed spec fn view(&self) -> Map<Seq<char>, Seq<char>> {
        map_of(self.pairs.deep_view())
    }
}

impl DeepView for StringMap {
    type V = Map<Seq<char>, Seq<char>>;

    open spec fn deep_view(&self) -> Map<Seq<char>, Seq<char>> {
        self@
    }
}

/// The value that `map` holds for `key`, if it holds one.
pub open spec fn value_of(map: Map<Seq<char>, Seq<char>>, key: Seq<char>) -> Option<Seq<char>> {
    if map.contains_key(key) {
        Some(map[key])
    } else {
        None
    }
}

impl StringMap {
    #[verifier::type_invariant]
    spec fn well_formed(self) -> bool {
        unique_keys(self.pairs.deep_view())
    }

    /// The pairs of the map, in the order in which their keys first came.
    pub closed spec fn entries(self) -> Seq<(Seq<char>, Seq<char>)> {
        self.pairs.deep_view()
    }

    /// A map without keys.
    pub fn new() -> (map: Self)
        ensures
            map@ == Map::<Seq<char>, Seq<char>>::empty(),
            map.entries().len() == 0,
    {
        let map = StringMap { pairs: Vec::new() };
        assert(map@ =~= Map::<Seq<char>, Seq<char>>::empty());
        map
    }

    /// The number of keys.
    pub fn len(&self) -> (count: usize)
        ensures
            count == self.entries().len(),
            count == 0 <==> self@ == Map::<Seq<char>, Seq<char>>::empty(),
    {
        proof {
            use_type_invariant(self);
            if self.pairs.len() > 0 {
                lemma_value_at(self.pairs.deep_view(), 0, self.pairs.deep_view()[0].0);
            } else {
                assert(self@ =~= Map::<Seq<char>, Seq<char>>::empty());
            }
        }
        self.pairs.len()
    }

    fn find(&self, key: &String) -> (found: Option<usize>)
        ensures
            match found {
                Some(i) => has_key_at(self.entries(), i as int, key@),
                None => forall|j: int| !has_key_at(self.entries(), j, key@),
            },
    {
        let mut i: usize = 0;
        while i < self.pairs.len()
            invariant
                i <= self.pairs.len(),
                forall|j: int| 0 <= j < i ==> !has_key_at(self.entries(), j, key@),
            decreases self.pairs.len() - i,
        {
            if self.pairs[i].0 == *key {
                assert(self.entries()[i as int].0 == key@);
                return Some(i);
            }
            i += 1;
        }
        None
    }

    /// The value that the map holds for `key`, if it holds one.
    pub fn get(&self, key: &str) -> (value: Option<&String>)
        ensures
            value.deep_view() == value_of(self@, key@),
    {
        proof {
            use_type_invariant(self);
        }
        let wanted = key.to_owned();
        match self.find(&wanted) {
            Some(i) => {
                proof {
                    lemma_value_at(self.entries(), i as int, key@);
                    assert(self.entries()[i as int].1 == self.pairs[i as int].1@);
                }
                let value = Some(&self.pairs[i].1);
                assert(value.deep_view() == Some(self.pairs[i as int].1@));
                value
            },
            None => {
                proof {
                    lemma_no_value(self.entries(), key@);
                }
                let value: Option<&String> = None;
                assert(value.deep_view() == None::<Seq<char>>);
                value
            },
        }
    }

    /// Gives `key` the value `value`, in place of the one it had, if it
    /// had one.
    pub fn insert(&mut self, key: String, value: String)
        ensures
            final(self)@ == old(self)@.insert(key@, value@),
            final(self).entries() == pairs_after_insert(old(self).entries(), key@, value@),
    {
        proof {
            use_type_invariant(&*self);
        }
        let ghost before = self.entries();
        let ghost k = key@;
        let ghost v = value@;
        let found = self.find(&key);
        let mut pairs: Vec<(String, String)> = Vec::new();
        core::mem::swap(&mut self.pairs, &mut pairs);
        match found {
            Some(i) => {
                proof {
                    let c = choose|j: int| has_key_at(before, j, k);
                    assert(has_key_at(before, c, k));
                    if c != i {
                        assert(before[c].0 == before[i as int].0);
                    }
                }
                pairs.set(i, (key, value));
            },
            None => {
                pairs.push((key, value));
            },
        }
        proof {
            assert(pairs.deep_view() =~= pairs_after_insert(before, k, v));
            lemma_insert(before, k, v);
        }
        core::mem::swap(&mut self.pairs, &mut pairs);
    }

    /// Whether the map has no key but `key`.
    pub fn has_no_key_but(&self, key: &str) -> (only: bool)
        ensures
            only == (forall|other: Seq<char>| self@.contains_key(other) ==> other == key@),
    {
        proof {
            use_type_invariant(self);
        }
        let wanted = key.to_owned();
        let mut i: usize = 0;
        while i < self.pairs.len()
            invariant
                i <= self.pairs.len(),
                wanted@ == key@,
                unique_keys(self.entries()),
                forall|j: int| 0 <= j < i ==> (#[trigger] self.entries()[j]).0 == key@,
            decreases self.pairs.len() - i,
        {
            if !(self.pairs[i].0 == wanted) {
                proof {
                    let other = self.entries()[i as int].0;
                    assert(other == self.pairs[i as int].0@);
                    lemma_value_at(self.entries(), i as int, other);
                    assert(self@.contains_key(other) && other != key@);
                }
                return false;
            }
            assert(self.entries()[i as int].0 == key@);
            i += 1;
        }
        proof {
            assert forall|other: Seq<char>| self@.contains_key(other) implies other == key@ by {
                let j = choose|j: int| has_key_at(self.entries(), j, other);
                assert(has_key_at(self.entries(), j, other));
            }
        }
        true
    }

    /// The pairs of the map, in the order in which their keys first came.
    pub fn to_vec(&self) -> (pairs: Vec<(String, String)>)
        ensures
            pairs.deep_view() == self.entries(),
            map_of(pairs.deep_view()) == self@,
    {
        let mut pairs: Vec<(String, String)> = Vec::new();
        let mut i: usize = 0;
        while i < self.pairs.len()
            invariant
                i <= self.pairs.len(),
                pairs.len() == i,
                forall|j: int|
                    0 <= j < i ==> pairs[j].0@ == self.pairs[j].0@ && pairs[j].1@
                        == self.pairs[j].1@,
            decreases self.pairs.len() - i,
        {
            pairs.push((self.pairs[i].0.clone(), self.pairs[i].1.clone()));
            i += 1;
        }
        assert(pairs.deep_view() =~= self.entries());
        pairs
    }

    /// The map that `pairs` spell; of two pairs with one key the later one
    /// counts.
    pub fn from_pairs(pairs: &Vec<(String, String)>) -> (map: Self)
        ensures
            map@ == spelled(pairs.deep_view()),
    {
        let mut map = StringMap::new();
        let mut i: usize = 0;
        let ghost all = pairs.deep_view();
        assert(all.take(0) =~= Seq::<(Seq<char>, Seq<char>)>::empty());
        while i < pairs.len()
            invariant
                i <= pairs.len(),
                all == pairs.deep_view(),
                map@ == spelled(all.take(i as int)),
            decreases pairs.len() - i,
        {
            proof {
                assert(all.take(i + 1).drop_last() =~= all.take(i as int));
                assert(all.take(i + 1).last() == all[i as int]);
            }
            map.insert(pairs[i].0.clone(), pairs[i].1.clone());
            i += 1;
        }
        proof {
            assert(all.take(i as int) =~= all);
        }
        map
    }

    fn included_in(&self, other: &StringMap) -> (included: bool)
        ensures
            included == (forall|key: Seq<char>| #[trigger]
                self@.contains_key(key) ==> other@.contains_key(key) && other@[key] == self@[key]),
    {
        proof {
            use_type_invariant(self);
        }
        let mut i: usize = 0;
        while i < self.pairs.len()
            invariant
                i <= self.pairs.len(),
                unique_keys(self.entries()),
                forall|j: int|
                    0 <= j < i ==> other@.contains_key((#[trigger] self.entries()[j]).0)
                        && other@[self.entries()[j].0] == self.entries()[j].1,
            decreases self.pairs.len() - i,
        {
            let ghost key = self.entries()[i as int].0;
            proof {
                lemma_value_at(self.entries(), i as int, key);
                assert(key == self.pairs[i as int].0@);
                assert(self.entries()[i as int].1 == self.pairs[i as int].1@);
            }
            let found = other.get(self.pairs[i].0.as_str());
            let same = match found {
                Some(value) => *value == self.pairs[i].1,
                None => false,
            };
            if !same {
                proof {
                    assert(self@.contains_key(key));
                    assert(found.deep_view() == value_of(other@, key));
                    assert(!(other@.contains_key(key) && other@[key] == self@[key]));
                }
                return false;
            }
            proof {
                assert(found.deep_view() == value_of(other@, key));
                assert(other@.contains_key(key) && other@[key] == self.entries()[i as int].1);
            }
            i += 1;
        }
        proof {
            assert forall|key: Seq<char>| #[trigger]
                self@.contains_key(key) implies other@.contains_key(key) && other@[key]
                == self@[key] by {
                let j = choose|j: int| has_key_at(self.entries(), j, key);
                assert(has_key_at(self.entries(), j, key));
                lemma_value_at(self.entries(), j, key);
            }
        }
        true
    }
}

/// The map that `pairs` spell when they are put into it one after the
/// other: of two pairs with one key the later one counts.
pub open spec fn spelled(pairs: Seq<(Seq<char>, Seq<char>)>) -> Map<Seq<char>, Seq<char>>
    decreases pairs.len(),
{
    if pairs.len() == 0 {
        Map::empty()
    } else {
        spelled(pairs.drop_last()).insert(pairs.last().0, pairs.last().1)
    }
}

impl Clone for StringMap {
    fn clone(&self) -> (copy: Self)
        ensures
            copy@ == self@,
            copy.entries() == self.entries(),
    {
        proof {
            use_type_invariant(self);
        }
        StringMap { pairs: self.to_vec() }
    }
}

impl Default for StringMap {
    fn default() -> (map: Self)
        ensures
            map@ == Map::<Seq<char>, Seq<char>>::empty(),
    {
        StringMap::new()
    }
}

impl PartialEq for StringMap {
    fn eq(&self, other: &Self) -> (same: bool) {
        let forth = self.included_in(other);
        let back = other.included_in(self);
        let same = forth && back;
        proof {
            if same {
                assert forall|key: Seq<char>|
                    (#[trigger] self@.dom().contains(key)) == other@.dom().contains(key) && (
                    self@.dom().contains(key) ==> self@[key] == other@[key]) by {
                    if self@.contains_key(key) {
                        assert(other@.contains_key(key) && other@[key] == self@[key]);
                    }
                    if other@.contains_key(key) {
                        assert(self@.contains_key(key) && self@[key] == other@[key]);
                    }
                }
                lemma_same_maps(self@, other@);
            }
        }
        same
    }
}

impl PartialEqSpecImpl for StringMap {
    open spec fn obeys_eq_spec() -> bool {
        true
    }

    open spec fn eq_spec(&self, other: &Self) -> bool {
        self@ == other@
    }
}

} // verus!
