//! A map from text keys to values that remembers the order in which keys
//! first arrived. Lookups find the first entry with the key.

use vstd::prelude::*;
use crate::text::str_eq;

verus! {

/// Whether `i` is the first position of `key` in `keys`.
pub open spec fn first_at(keys: Seq<Seq<char>>, key: Seq<char>, i: int) -> bool {
    &&& 0 <= i < keys.len()
    &&& keys[i] == key
    &&& forall|j: int| 0 <= j < i ==> keys[j] != key
}

/// The first position of `key` in `keys`, or -1 where it does not occur.
pub open spec fn first_position(keys: Seq<Seq<char>>, key: Seq<char>) -> int
    decreases keys.len(),
{
    if keys.len() == 0 {
        -1
    } else {
        let before = first_position(keys.drop_last(), key);
        if before >= 0 {
            before
        } else if keys.last() == key {
            keys.len() - 1
        } else {
            -1
        }
    }
}

/// `first_position` finds the first occurrence, and is negative exactly when there is none.
pub proof fn lemma_first_position(keys: Seq<Seq<char>>, key: Seq<char>)
    ensures
        first_position(keys, key) >= 0 ==> first_at(keys, key, first_position(keys, key)),
        first_position(keys, key) < 0 ==> first_position(keys, key) == -1 && !keys.contains(key),
        forall|i: int| first_at(keys, key, i) ==> first_position(keys, key) == i,
    decreases keys.len(),
{
    if keys.len() > 0 {
        let init = keys.drop_last();
        lemma_first_position(init, key);
        let p = first_position(keys, key);
        assert forall|i: int| first_at(keys, key, i) implies p == i by {
            if i < init.len() {
                assert(init[i] == keys[i]);
                assert(first_at(init, key, i)) by {
                    assert forall|j: int| 0 <= j < i implies init[j] != key by {
                        assert(init[j] == keys[j]);
                    }
                }
            } else {
                if first_position(init, key) >= 0 {
                    let q = first_position(init, key);
                    assert(keys[q] == init[q]);
                }
            }
        }
        if p < 0 {
            assert forall|j: int| 0 <= j < keys.len() implies keys[j] != key by {
                if j < init.len() {
                    assert(init[j] == keys[j]);
                    assert(!init.contains(key));
                }
            }
        } else if first_position(init, key) >= 0 {
            let q = first_position(init, key);
            assert(keys[q] == init[q]);
            assert forall|j: int| 0 <= j < q implies keys[j] != key by {
                assert(init[j] == keys[j]);
            }
        } else {
            assert forall|j: int| 0 <= j < keys.len() - 1 implies keys[j] != key by {
                assert(init[j] == keys[j]);
                assert(!init.contains(key));
            }
        }
    }
}

/// Whether no key occurs twice.
pub open spec fn distinct(keys: Seq<Seq<char>>) -> bool {
    forall|i: int, j: int| 0 <= i < j < keys.len() ==> keys[i] != keys[j]
}

/// Entries in arrival order.
#[derive(Debug, PartialEq, Eq)]
pub struct OrderedMap<V> {
    pub entries: Vec<(String, V)>,
}

impl<V> OrderedMap<V> {
    /// The keys, in order.
    pub open spec fn keys(&self) -> Seq<Seq<char>> {
        Seq::new(self.entries@.len(), |i: int| self.entries@[i].0@)
    }

    pub open spec fn has(&self, key: Seq<char>) -> bool {
        first_position(self.keys(), key) >= 0
    }

    /// The value that a lookup of `key` finds.
    pub open spec fn at(&self, key: Seq<char>) -> V
        recommends
            self.has(key),
    {
        self.entries@[first_position(self.keys(), key)].1
    }

    pub open spec fn lookup(&self, key: Seq<char>) -> Option<V> {
        if self.has(key) {
            Some(self.at(key))
        } else {
            None
        }
    }

    pub fn new() -> (map: OrderedMap<V>)
        ensures
            map.entries@.len() == 0,
            map.keys() == Seq::<Seq<char>>::empty(),
    {
        let map = OrderedMap { entries: Vec::new() };
        assert(map.keys() =~= Seq::<Seq<char>>::empty());
        map
    }

    pub fn len(&self) -> (n: usize)
        ensures
            n == self.entries@.len(),
    {
        self.entries.len()
    }

    pub fn is_empty(&self) -> (empty: bool)
        ensures
            empty == (self.entries@.len() == 0),
    {
        self.entries.len() == 0
    }

    /// Position of the first entry with `key`.
    pub fn position(&self, key: &str) -> (found: Option<usize>)
        ensures
            match found {
                Some(i) => first_position(self.keys(), key@) == i && i < self.entries@.len(),
                None => first_position(self.keys(), key@) == -1,
            },
    {
        let mut i: usize = 0;
        while i < self.entries.len()
            invariant
                i <= self.entries@.len(),
                forall|j: int| 0 <= j < i ==> self.keys()[j] != key@,
            decreases self.entries@.len() - i,
        {
            if str_eq(self.entries[i].0.as_str(), key) {
                proof {
                    assert(self.keys()[i as int] == key@);
                    assert(first_at(self.keys(), key@, i as int));
                    lemma_first_position(self.keys(), key@);
                }
                return Some(i);
            }
            i += 1;
        }
        proof {
            lemma_first_position(self.keys(), key@);
            if first_position(self.keys(), key@) >= 0 {
                assert(false);
            }
        }
        None
    }

    pub fn contains_key(&self, key: &str) -> (found: bool)
        ensures
            found == self.has(key@),
    {
        self.position(key).is_some()
    }

    /// The value of the first entry with `key`.
    pub fn get(&self, key: &str) -> (found: Option<&V>)
        ensures
            found is Some == self.has(key@),
            found matches Some(v) ==> *v == self.at(key@),
    {
        match self.position(key) {
            Some(i) => Some(&self.entries[i].1),
            None => None,
        }
    }

    /// Sets the value of `key`: in place where the key is present, at the end where it is new.
    pub fn insert(&mut self, key: String, value: V)
        ensures
            old(self).has(key@) ==> final(self).entries@ == old(self).entries@.update(
                first_position(old(self).keys(), key@),
                (key, value),
            ),
            !old(self).has(key@) ==> final(self).entries@ == old(self).entries@.push((key, value)),
            final(self).has(key@),
            final(self).at(key@) == value,
            distinct(old(self).keys()) ==> distinct(final(self).keys()),
    {
        let ghost before = self.keys();
        match self.position(key.as_str()) {
            Some(i) => {
                self.entries[i] = (key, value);
                proof {
                    lemma_first_position(before, key@);
                    assert(self.keys() =~= before);
                }
            },
            None => {
                self.entries.push((key, value));
                proof {
                    lemma_first_position(before, key@);
                    assert(self.keys() =~= before.push(key@));
                    assert(self.keys().drop_last() =~= before);
                    assert(first_position(self.keys(), key@) == before.len());
                }
            },
        }
    }
}

impl<V: DeepView> DeepView for OrderedMap<V> {
    type V = Seq<(Seq<char>, V::V)>;

    /// The entries as pairs of key and value model, in order.
    open spec fn deep_view(&self) -> Seq<(Seq<char>, V::V)> {
        self.entries.deep_view()
    }
}

impl<V: Clone> Clone for OrderedMap<V> {
    fn clone(&self) -> (copy: OrderedMap<V>)
        ensures
            copy.entries@.len() == self.entries@.len(),
            forall|i: int|
                #![trigger copy.entries@[i]]
                0 <= i < self.entries@.len() ==> copy.entries@[i].0@ == self.entries@[i].0@
                    && cloned::<V>(self.entries@[i].1, copy.entries@[i].1),
    {
        let mut entries: Vec<(String, V)> = Vec::new();
        let mut i: usize = 0;
        while i < self.entries.len()
            invariant
                i <= self.entries@.len(),
                entries@.len() == i,
                forall|j: int|
                    #![trigger entries@[j]]
                    0 <= j < i ==> entries@[j].0@ == self.entries@[j].0@ && cloned::<V>(
                        self.entries@[j].1,
                        entries@[j].1,
                    ),
            decreases self.entries@.len() - i,
        {
            let key = self.entries[i].0.clone();
            let value = self.entries[i].1.clone();
            entries.push((key, value));
            i += 1;
        }
        OrderedMap { entries }
    }
}

/// Keys of a map model, in order.
pub open spec fn model_keys<T>(m: Seq<(Seq<char>, T)>) -> Seq<Seq<char>> {
    Seq::new(m.len(), |i: int| m[i].0)
}

/// Whether a map model holds `key`.
pub open spec fn model_has<T>(m: Seq<(Seq<char>, T)>, key: Seq<char>) -> bool {
    first_position(model_keys(m), key) >= 0
}

/// The value that a map model gives for `key`.
pub open spec fn model_at<T>(m: Seq<(Seq<char>, T)>, key: Seq<char>) -> T
    recommends
        model_has(m, key),
{
    m[first_position(model_keys(m), key)].1
}

/// A map model with `key` set to `value`: in place where present, at the end where new.
pub open spec fn model_put<T>(m: Seq<(Seq<char>, T)>, key: Seq<char>, value: T) -> Seq<
    (Seq<char>, T),
> {
    if model_has(m, key) {
        m.update(first_position(model_keys(m), key), (key, value))
    } else {
        m.push((key, value))
    }
}

/// The model of a map has the map's keys, and its values are the models of the map's values.
pub proof fn lemma_model_of_map<V: DeepView>(map: OrderedMap<V>)
    ensures
        model_keys(map.deep_view()) == map.keys(),
        map.deep_view().len() == map.entries@.len(),
        forall|i: int|
            0 <= i < map.entries@.len() ==> #[trigger] map.deep_view()[i] == (
                map.entries@[i].0@,
                map.entries@[i].1.deep_view(),
            ),
        forall|key: Seq<char>| model_has(map.deep_view(), key) == #[trigger] map.has(key),
        forall|key: Seq<char>|
            map.has(key) ==> #[trigger] model_at(map.deep_view(), key) == map.at(key).deep_view(),
{
    assert(model_keys(map.deep_view()) =~= map.keys());
    assert forall|key: Seq<char>| map.has(key) implies #[trigger] model_at(map.deep_view(), key)
        == map.at(key).deep_view() by {
        lemma_first_position(map.keys(), key);
    }
}

/// A two-level map model with `value` set under `outer`, then `inner`.
pub open spec fn model_put_nested<T>(
    m: Seq<(Seq<char>, Seq<(Seq<char>, T)>)>,
    outer: Seq<char>,
    inner: Seq<char>,
    value: T,
) -> Seq<(Seq<char>, Seq<(Seq<char>, T)>)> {
    let before = if model_has(m, outer) {
        model_at(m, outer)
    } else {
        Seq::empty()
    };
    model_put(m, outer, model_put(before, inner, value))
}

/// Whether a two-level map model holds a value under `outer`, then `inner`.
pub open spec fn model_has_nested<T>(
    m: Seq<(Seq<char>, Seq<(Seq<char>, T)>)>,
    outer: Seq<char>,
    inner: Seq<char>,
) -> bool {
    model_has(m, outer) && model_has(model_at(m, outer), inner)
}

/// The value that a two-level map model gives under `outer`, then `inner`.
pub open spec fn model_at_nested<T>(
    m: Seq<(Seq<char>, Seq<(Seq<char>, T)>)>,
    outer: Seq<char>,
    inner: Seq<char>,
) -> T
    recommends
        model_has_nested(m, outer, inner),
{
    model_at(model_at(m, outer), inner)
}

/// After `model_put`, the key is present with the new value, the other keys
/// keep theirs, and the keys stay distinct.
pub proof fn lemma_model_put<T>(m: Seq<(Seq<char>, T)>, key: Seq<char>, value: T)
    ensures
        model_has(model_put(m, key, value), key),
        model_at(model_put(m, key, value), key) == value,
        forall|other: Seq<char>|
            other != key ==> model_has(#[trigger] model_put(m, key, value), other) == model_has(
                m,
                other,
            ),
        forall|other: Seq<char>|
            other != key && model_has(m, other) ==> #[trigger] model_at(
                model_put(m, key, value),
                other,
            ) == model_at(m, other),
        model_put(m, key, value).len() == if model_has(m, key) {
            m.len()
        } else {
            m.len() + 1
        },
        model_keys(model_put(m, key, value)) == if model_has(m, key) {
            model_keys(m)
        } else {
            model_keys(m).push(key)
        },
        distinct(model_keys(m)) ==> distinct(model_keys(model_put(m, key, value))),
{
    let keys = model_keys(m);
    let after = model_put(m, key, value);
    let keys_after = model_keys(after);
    lemma_first_position(keys, key);
    if model_has(m, key) {
        assert(keys_after =~= keys);
    } else {
        assert(keys_after =~= keys.push(key));
        assert(keys_after.drop_last() =~= keys);
    }
    lemma_first_position(keys_after, key);
    assert forall|other: Seq<char>| other != key implies model_has(after, other) == model_has(
        m,
        other,
    ) && (model_has(m, other) ==> model_at(after, other) == model_at(m, other)) by {
        lemma_first_position(keys, other);
        lemma_first_position(keys_after, other);
        if model_has(m, other) {
            let p = first_position(keys, other);
            assert(keys_after[p] == other);
            assert(first_at(keys_after, other, p));
        } else if model_has(after, other) {
            let q = first_position(keys_after, other);
            assert(keys[q] == other);
        }
    }
}

impl<V: DeepView> OrderedMap<V> {
    /// Sets the value of `key`, as `insert` does; stated over the model.
    pub fn put(&mut self, key: String, value: V)
        ensures
            final(self).deep_view() == model_put(old(self).deep_view(), key@, value.deep_view()),
    {
        let ghost old_map = *self;
        let ghost before = self.deep_view();
        self.insert(key, value);
        proof {
            lemma_model_of_map(old_map);
            lemma_model_of_map(*self);
            lemma_first_position(old_map.keys(), key@);
            assert(old_map.has(key@) == model_has(before, key@));
            let after = model_put(before, key@, value.deep_view());
            assert(self.deep_view().len() == after.len());
            assert forall|i: int| 0 <= i < after.len() implies self.deep_view()[i] == after[i] by {
                if i < before.len() {
                    assert(before[i] == (old_map.entries@[i].0@, old_map.entries@[i].1.deep_view()));
                }
            }
            assert(self.deep_view() =~= after);
        }
    }
}

/// Sets `value` under `outer`, then `inner`, in a two-level map.
pub fn put_nested<V: DeepView>(
    map: &mut OrderedMap<OrderedMap<V>>,
    outer: &str,
    inner: String,
    value: V,
)
    ensures
        final(map).deep_view() == model_put_nested(
            old(map).deep_view(),
            outer@,
            inner@,
            value.deep_view(),
        ),
{
    proof {
        lemma_model_of_map(*map);
    }
    let ghost before = map.deep_view();
    match map.position(outer) {
        Some(i) => {
            let ghost key = map.entries@[i as int].0;
            let ghost nested_before = map.entries@[i as int].1.deep_view();
            map.entries[i].1.put(inner, value);
            proof {
                lemma_first_position(model_keys(before), outer@);
                assert(map.entries@[i as int].0 == key);
                assert(map.deep_view() =~= before.update(
                    i as int,
                    (outer@, model_put(nested_before, inner@, value.deep_view())),
                ));
            }
        },
        None => {
            let mut nested: OrderedMap<V> = OrderedMap::new();
            assert(nested.deep_view() =~= Seq::empty());
            nested.put(inner, value);
            map.put(outer.to_string(), nested);
        },
    }
}

} // verus!
