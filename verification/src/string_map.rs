//! A map with string keys, kept as a list of entries without duplicate keys.

use vstd::prelude::*;

verus! {

/// No two pairs of `pairs` have the same key.
pub open spec fn distinct_keys<V>(pairs: Seq<(Seq<char>, V)>) -> bool {
    forall|i: int, j: int|
        #![trigger pairs[i], pairs[j]]
        0 <= i < j < pairs.len() ==> pairs[i].0 != pairs[j].0
}

/// Position `i` of `pairs` holds the key `key`.
pub open spec fn has_key_at<V>(pairs: Seq<(Seq<char>, V)>, key: Seq<char>, i: int) -> bool {
    0 <= i < pairs.len() && pairs[i].0 == key
}

/// The map that sends each key of `pairs` to the value it is paired with.
pub open spec fn pairs_to_map<V>(pairs: Seq<(Seq<char>, V)>) -> Map<Seq<char>, V> {
    Map::new(
        |key: Seq<char>| exists|i: int| has_key_at(pairs, key, i),
        |key: Seq<char>| pairs[choose|i: int| has_key_at(pairs, key, i)].1,
    )
}

/// A map from strings to values of type `V`.
#[derive(Debug)]
pub struct StringMap<V> {
    entries: Vec<(String, V)>,
}

impl<V> View for StringMap<V> {
    type V = Map<Seq<char>, V>;

    open spec fn view(&self) -> Map<Seq<char>, V> {
        pairs_to_map(self.pairs())
    }
}

/// In a list without duplicate keys, each position decides what the map holds for its key.
proof fn lemma_pair_in_map<V>(pairs: Seq<(Seq<char>, V)>, i: int)
    requires
        distinct_keys(pairs),
        0 <= i < pairs.len(),
    ensures
        pairs_to_map(pairs).contains_key(pairs[i].0),
        pairs_to_map(pairs)[pairs[i].0] == pairs[i].1,
{
    let key = pairs[i].0;
    assert(has_key_at(pairs, key, i));
    let j = choose|j: int| has_key_at(pairs, key, j);
    assert(has_key_at(pairs, key, j));
    assert(pairs[i].0 == pairs[j].0);
}

impl<V> StringMap<V> {
    /// The entries in the order in which the map keeps them.
    pub closed spec fn pairs(self) -> Seq<(Seq<char>, V)> {
        self.entries@.map_values(|entry: (String, V)| (entry.0@, entry.1))
    }

    /// Keys do not repeat.
    #[verifier::type_invariant]
    spec fn wf(self) -> bool {
        distinct_keys(self.pairs())
    }

    /// An empty map.
    pub fn new() -> (map: Self)
        ensures
            map@ == Map::<Seq<char>, V>::empty(),
            map.pairs() == Seq::<(Seq<char>, V)>::empty(),
    {
        let map = StringMap { entries: Vec::new() };
        assert(map.pairs() =~= Seq::empty());
        assert(map@ =~= Map::empty());
        map
    }

    /// The number of entries.
    pub fn len(&self) -> (len: usize)
        ensures
            len == self.pairs().len(),
    {
        self.entries.len()
    }

    /// The value of the entry at position `index`.
    pub fn value_at(&self, index: usize) -> (value: &V)
        requires
            index < self.pairs().len(),
        ensures
            *value == self.pairs()[index as int].1,
            self@.contains_key(self.pairs()[index as int].0),
            *value == self@[self.pairs()[index as int].0],
    {
        proof {
            use_type_invariant(self);
            lemma_pair_in_map(self.pairs(), index as int);
        }
        &self.entries[index].1
    }

    fn position(&self, key: &String) -> (position: Option<usize>)
        ensures
            match position {
                Some(i) => has_key_at(self.pairs(), key@, i as int),
                None => forall|i: int| !has_key_at(self.pairs(), key@, i),
            },
    {
        let mut i: usize = 0;
        while i < self.entries.len()
            invariant
                i <= self.entries@.len(),
                forall|j: int| 0 <= j < i ==> !has_key_at(self.pairs(), key@, j),
            decreases self.entries@.len() - i,
        {
            assert(self.pairs()[i as int].0 == self.entries@[i as int].0@);
            if self.entries[i].0 == *key {
                return Some(i);
            }
            i = i + 1;
        }
        None
    }

    /// Whether `key` is in the map.
    pub fn contains_key(&self, key: &String) -> (found: bool)
        ensures
            found == self@.contains_key(key@),
    {
        self.position(key).is_some()
    }

    /// The value of `key`.
    pub fn get(&self, key: &String) -> (value: Option<&V>)
        ensures
            match value {
                Some(v) => self@.contains_key(key@) && *v == self@[key@],
                None => !self@.contains_key(key@),
            },
    {
        match self.position(key) {
            Some(i) => {
                proof {
                    use_type_invariant(self);
                    lemma_pair_in_map(self.pairs(), i as int);
                }
                Some(&self.entries[i].1)
            },
            None => None,
        }
    }

    /// Sets the value of `key`.
    pub fn insert(&mut self, key: String, value: V)
        ensures
            final(self)@ == old(self)@.insert(key@, value),
    {
        proof {
            use_type_invariant(&*self);
        }
        let ghost before = self.pairs();
        let position = self.position(&key);
        let mut entries: Vec<(String, V)> = Vec::new();
        std::mem::swap(&mut entries, &mut self.entries);
        match position {
            Some(i) => {
                entries.set(i, (key, value));
                proof {
                    let after = StringMap { entries };
                    assert(after.pairs() =~= before.update(i as int, (key@, value)));
                    lemma_map_after_update(before, i as int, value);
                }
            },
            None => {
                entries.push((key, value));
                proof {
                    let after = StringMap { entries };
                    assert(after.pairs() =~= before.push((key@, value)));
                    lemma_map_after_push(before, key@, value);
                }
            },
        }
        self.entries = entries;
    }

    /// Removes `key`, if it is there.
    pub fn remove(&mut self, key: &String)
        ensures
            final(self)@ == old(self)@.remove(key@),
    {
        proof {
            use_type_invariant(&*self);
        }
        let ghost before = self.pairs();
        match self.position(key) {
            Some(i) => {
                let mut entries: Vec<(String, V)> = Vec::new();
                std::mem::swap(&mut entries, &mut self.entries);
                let _ = entries.remove(i);
                proof {
                    let after = StringMap { entries };
                    assert(after.pairs() =~= before.remove(i as int));
                    lemma_map_after_remove(before, i as int);
                }
                self.entries = entries;
            },
            None => {
                assert(!self@.contains_key(key@));
                assert(self@.remove(key@) =~= self@);
            },
        }
    }

    /// The keys, each once.
    pub fn keys(&self) -> (keys: Vec<String>)
        ensures
            keys@.len() == self.pairs().len(),
            forall|i: int| 0 <= i < keys@.len() ==> (#[trigger] keys@[i])@ == self.pairs()[i].0,
            keys@.map_values(|key: String| key@).no_duplicates(),
            forall|key: Seq<char>|
                keys@.map_values(|key: String| key@).contains(key)
                    <==> #[trigger] self@.contains_key(key),
    {
        let mut keys: Vec<String> = Vec::new();
        let mut i: usize = 0;
        while i < self.entries.len()
            invariant
                i <= self.entries@.len(),
                keys@.len() == i,
                forall|j: int| 0 <= j < i ==> (#[trigger] keys@[j])@ == self.pairs()[j].0,
            decreases self.entries@.len() - i,
        {
            keys.push(self.entries[i].0.clone());
            i = i + 1;
        }
        proof {
            use_type_invariant(self);
            let views = keys@.map_values(|key: String| key@);
            assert forall|key: Seq<char>|
                views.contains(key) <==> #[trigger] self@.contains_key(key) by {
                if views.contains(key) {
                    let j = choose|j: int| 0 <= j < views.len() && views[j] == key;
                    assert(has_key_at(self.pairs(), key, j));
                }
                if self@.contains_key(key) {
                    let j = choose|j: int| has_key_at(self.pairs(), key, j);
                    assert(has_key_at(self.pairs(), key, j));
                    assert(views[j] == key);
                }
            }
        }
        keys
    }
}

proof fn lemma_map_after_update<V>(pairs: Seq<(Seq<char>, V)>, i: int, value: V)
    requires
        distinct_keys(pairs),
        0 <= i < pairs.len(),
    ensures
        distinct_keys(pairs.update(i, (pairs[i].0, value))),
        pairs_to_map(pairs.update(i, (pairs[i].0, value))) == pairs_to_map(pairs).insert(
            pairs[i].0,
            value,
        ),
{
    let after = pairs.update(i, (pairs[i].0, value));
    let left = pairs_to_map(after);
    let right = pairs_to_map(pairs).insert(pairs[i].0, value);
    assert forall|key: Seq<char>| left.contains_key(key) == right.contains_key(key) by {
        if left.contains_key(key) {
            let j = choose|j: int| has_key_at(after, key, j);
            assert(has_key_at(pairs, key, j));
        }
        if right.contains_key(key) {
            if key == pairs[i].0 {
                assert(has_key_at(after, key, i));
            } else {
                let j = choose|j: int| has_key_at(pairs, key, j);
                assert(has_key_at(after, key, j));
            }
        }
    }
    assert forall|key: Seq<char>| left.contains_key(key) implies left[key] == right[key] by {
        let j = choose|j: int| has_key_at(after, key, j);
        assert(has_key_at(after, key, j));
        lemma_pair_in_map(after, j);
        lemma_pair_in_map(pairs, j);
    }
    assert(left =~= right);
}

proof fn lemma_map_after_push<V>(pairs: Seq<(Seq<char>, V)>, key: Seq<char>, value: V)
    requires
        distinct_keys(pairs),
        forall|i: int| !has_key_at(pairs, key, i),
    ensures
        distinct_keys(pairs.push((key, value))),
        pairs_to_map(pairs.push((key, value))) == pairs_to_map(pairs).insert(key, value),
{
    let after = pairs.push((key, value));
    assert forall|i: int, j: int|
        #![trigger after[i], after[j]]
        0 <= i < j < after.len() implies after[i].0 != after[j].0 by {
        if j == pairs.len() {
            assert(!has_key_at(pairs, key, i));
        }
    }
    let left = pairs_to_map(after);
    let right = pairs_to_map(pairs).insert(key, value);
    assert forall|k: Seq<char>| left.contains_key(k) == right.contains_key(k) by {
        if left.contains_key(k) {
            let j = choose|j: int| has_key_at(after, k, j);
            assert(has_key_at(after, k, j));
            if k != key {
                assert(has_key_at(pairs, k, j));
            }
        }
        if right.contains_key(k) {
            if k == key {
                assert(has_key_at(after, k, pairs.len() as int));
            } else {
                let j = choose|j: int| has_key_at(pairs, k, j);
                assert(has_key_at(after, k, j));
            }
        }
    }
    assert forall|k: Seq<char>| left.contains_key(k) implies left[k] == right[k] by {
        let j = choose|j: int| has_key_at(after, k, j);
        assert(has_key_at(after, k, j));
        lemma_pair_in_map(after, j);
        if k != key {
            lemma_pair_in_map(pairs, j);
        } else {
            assert(!has_key_at(pairs, key, j));
        }
    }
    assert(left =~= right);
}

proof fn lemma_map_after_remove<V>(pairs: Seq<(Seq<char>, V)>, i: int)
    requires
        distinct_keys(pairs),
        0 <= i < pairs.len(),
    ensures
        distinct_keys(pairs.remove(i)),
        pairs_to_map(pairs.remove(i)) == pairs_to_map(pairs).remove(pairs[i].0),
{
    let after = pairs.remove(i);
    assert forall|j: int, k: int|
        #![trigger after[j], after[k]]
        0 <= j < k < after.len() implies after[j].0 != after[k].0 by {
        let j0 = if j < i { j } else { j + 1 };
        let k0 = if k < i { k } else { k + 1 };
        assert(after[j] == pairs[j0] && after[k] == pairs[k0]);
    }
    let left = pairs_to_map(after);
    let right = pairs_to_map(pairs).remove(pairs[i].0);
    assert forall|key: Seq<char>| left.contains_key(key) == right.contains_key(key) by {
        if left.contains_key(key) {
            let j = choose|j: int| has_key_at(after, key, j);
            assert(has_key_at(after, key, j));
            let j0 = if j < i { j } else { j + 1 };
            assert(has_key_at(pairs, key, j0));
            assert(pairs[j0].0 != pairs[i].0);
        }
        if right.contains_key(key) {
            let j = choose|j: int| has_key_at(pairs, key, j);
            assert(has_key_at(pairs, key, j));
            let j1 = if j < i { j } else { j - 1 };
            assert(has_key_at(after, key, j1));
        }
    }
    assert forall|key: Seq<char>| left.contains_key(key) implies left[key] == right[key] by {
        let j = choose|j: int| has_key_at(after, key, j);
        assert(has_key_at(after, key, j));
        lemma_pair_in_map(after, j);
        lemma_pair_in_map(pairs, if j < i { j } else { j + 1 });
    }
    assert(left =~= right);
}

/// After a key was set, it has the value that was set, and every other key has what it had.
pub proof fn law_set_key_is_found<V>(
    map: &mut StringMap<V>,
    key: String,
    value: V,
    asked: String,
    before: Option<&V>,
    after: Option<&V>,
)
    requires
        call_ensures(StringMap::<V>::get, (&*old(map), &asked), before),
        call_ensures(StringMap::<V>::insert, (map, key, value), ()),
        call_ensures(StringMap::<V>::get, (&*final(map), &asked), after),
    ensures
        asked@ == key@ ==> after == Some(&value),
        asked@ != key@ ==> after == before,
{
}

/// After a key was removed, it is not found, and every other key has what it had.
pub proof fn law_removed_key_is_not_found<V>(
    map: &mut StringMap<V>,
    key: String,
    asked: String,
    before: Option<&V>,
    after: Option<&V>,
)
    requires
        call_ensures(StringMap::<V>::get, (&*old(map), &asked), before),
        call_ensures(StringMap::<V>::remove, (map, &key), ()),
        call_ensures(StringMap::<V>::get, (&*final(map), &asked), after),
    ensures
        asked@ == key@ ==> after is None,
        asked@ != key@ ==> after == before,
{
}

/// A new map has no keys.
pub proof fn law_new_map_is_empty<V>(
    map: StringMap<V>,
    asked: String,
    found: Option<&V>,
    len: usize,
)
    requires
        call_ensures(StringMap::<V>::new, (), map),
        call_ensures(StringMap::<V>::get, (&map, &asked), found),
        call_ensures(StringMap::<V>::len, (&map,), len),
    ensures
        found is None,
        len == 0,
{
}

/// The keys of a map are the texts for which a value is found, each of them once, and they are
/// counted by its length.
pub proof fn law_keys_are_what_is_found<V>(
    map: StringMap<V>,
    keys: Vec<String>,
    len: usize,
    asked: String,
    contained: bool,
    found: Option<&V>,
)
    requires
        call_ensures(StringMap::<V>::keys, (&map,), keys),
        call_ensures(StringMap::<V>::len, (&map,), len),
        call_ensures(StringMap::<V>::contains_key, (&map, &asked), contained),
        call_ensures(StringMap::<V>::get, (&map, &asked), found),
    ensures
        contained <==> found is Some,
        contained <==> exists|i: int| 0 <= i < keys@.len() && (#[trigger] keys@[i])@ == asked@,
        forall|i: int, j: int|
            0 <= i < j < keys@.len() ==> (#[trigger] keys@[i])@ != (#[trigger] keys@[j])@,
        len == keys@.len(),
{
    let views = keys@.map_values(|key: String| key@);
    assert forall|i: int, j: int| 0 <= i < j < keys@.len() implies (#[trigger] keys@[i])@ != (
    #[trigger] keys@[j])@ by {
        assert(views[i] != views[j]);
    }
    if contained {
        assert(map@.contains_key(asked@));
        let i = choose|i: int| 0 <= i < views.len() && views[i] == asked@;
        assert(keys@[i]@ == asked@);
    }
    assert forall|i: int| 0 <= i < keys@.len() && (#[trigger] keys@[i])@
        == asked@ implies contained by {
        assert(views[i] == asked@);
        assert(views.contains(asked@));
        assert(map@.contains_key(asked@));
    }
}

/// The value at a position is the one that is found for the key at that position.
pub proof fn law_positions_of_keys_and_values_agree<V>(
    map: StringMap<V>,
    keys: Vec<String>,
    index: usize,
    value: &V,
    found: Option<&V>,
)
    requires
        call_ensures(StringMap::<V>::keys, (&map,), keys),
        index < keys@.len(),
        call_ensures(StringMap::<V>::value_at, (&map, index), value),
        call_ensures(StringMap::<V>::get, (&map, &keys@[index as int]), found),
    ensures
        found == Some(value),
{
    assert(keys@[index as int]@ == map.pairs()[index as int].0);
}

} // verus!
