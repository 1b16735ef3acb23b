//! A map from asset names to values.

use vstd::prelude::*;

use crate::order::sorted_order_covers;
use crate::text::{
    all_different, holds_text, index_order, same_text, sort_texts, text_before,
    text_order_is_strict, views,
};

verus! {

/// The first entry with this key.
pub open spec fn lookup<T>(entries: Seq<(String, T)>, key: Seq<char>) -> Option<T>
    decreases entries.len(),
{
    if entries.len() == 0 {
        None
    } else if entries[0].0@ == key {
        Some(entries[0].1)
    } else {
        lookup(entries.drop_first(), key)
    }
}

/// Values keyed by a name, in the order in which the names first came. The view is the
/// map from names to values.
#[derive(Clone, Debug)]
pub struct AssetMap<T> {
    entries: Vec<(String, T)>,
}

impl<T> View for AssetMap<T> {
    type V = Map<Seq<char>, T>;

    closed spec fn view(&self) -> Map<Seq<char>, T> {
        Map::new(
            |k: Seq<char>| lookup(self.entries@, k) is Some,
            |k: Seq<char>| lookup(self.entries@, k)->0,
        )
    }
}

proof fn lookup_skips<T>(entries: Seq<(String, T)>, key: Seq<char>, n: int)
    requires
        0 <= n <= entries.len(),
        forall|i: int| 0 <= i < n ==> (#[trigger] entries[i]).0@ != key,
    ensures
        lookup(entries, key) == lookup(entries.skip(n), key),
    decreases n,
{
    if n > 0 {
        let rest = entries.drop_first();
        assert forall|i: int| 0 <= i < n - 1 implies (#[trigger] rest[i]).0@ != key by {
            assert(rest[i] == entries[i + 1]);
        }
        lookup_skips(rest, key, n - 1);
        assert(rest.skip(n - 1) =~= entries.skip(n));
    } else {
        assert(entries.skip(0) =~= entries);
    }
}

proof fn lookup_of_other<T>(entries: Seq<(String, T)>, n: int, entry: (String, T), key: Seq<char>)
    requires
        0 <= n < entries.len(),
        entries[n].0@ == entry.0@,
        entry.0@ != key,
    ensures
        lookup(entries.update(n, entry), key) == lookup(entries, key),
    decreases entries.len(),
{
    let new = entries.update(n, entry);
    if n == 0 {
        assert(new.drop_first() =~= entries.drop_first());
    } else {
        lookup_of_other(entries.drop_first(), n - 1, entry, key);
        assert(new.drop_first() =~= entries.drop_first().update(n - 1, entry));
    }
}

proof fn lookup_of_push<T>(entries: Seq<(String, T)>, entry: (String, T), key: Seq<char>)
    ensures
        lookup(entries.push(entry), key) == (if lookup(entries, key) is Some {
            lookup(entries, key)
        } else if entry.0@ == key {
            Some(entry.1)
        } else {
            None
        }),
    decreases entries.len(),
{
    let new = entries.push(entry);
    reveal_with_fuel(lookup, 2);
    if entries.len() == 0 {
        assert(new.drop_first() =~= Seq::empty());
    } else {
        lookup_of_push(entries.drop_first(), entry, key);
        assert(new.drop_first() =~= entries.drop_first().push(entry));
    }
}

proof fn lookup_at<T>(entries: Seq<(String, T)>, i: int)
    requires
        0 <= i < entries.len(),
    ensures
        lookup(entries, entries[i].0@) is Some,
    decreases i,
{
    if i > 0 {
        lookup_at(entries.drop_first(), i - 1);
    }
}

proof fn lookup_found<T>(entries: Seq<(String, T)>, key: Seq<char>)
    requires
        lookup(entries, key) is Some,
    ensures
        exists|i: int| 0 <= i < entries.len() && (#[trigger] entries[i]).0@ == key,
    decreases entries.len(),
{
    if entries[0].0@ != key {
        lookup_found(entries.drop_first(), key);
        let i = choose|i: int|
            0 <= i < entries.drop_first().len() && (#[trigger] entries.drop_first()[i]).0@ == key;
        assert(entries[i + 1].0@ == key);
    }
}

impl<T> AssetMap<T> {
    pub fn new() -> (r: Self)
        ensures
            r@ == Map::<Seq<char>, T>::empty(),
    {
        let r = AssetMap { entries: Vec::new() };
        assert(r@ =~= Map::<Seq<char>, T>::empty());
        r
    }

    fn index_of(&self, key: &str) -> (r: Option<usize>)
        ensures
            match r {
                Some(i) => {
                    &&& i < self.entries@.len()
                    &&& self.entries@[i as int].0@ == key@
                    &&& forall|j: int| 0 <= j < i ==> (#[trigger] self.entries@[j]).0@ != key@
                    &&& lookup(self.entries@, key@) == Some(self.entries@[i as int].1)
                },
                None => {
                    &&& forall|j: int|
                        0 <= j < self.entries@.len() ==> (#[trigger] self.entries@[j]).0@ != key@
                    &&& lookup(self.entries@, key@) is None
                },
            },
    {
        let mut i: usize = 0;
        while i < self.entries.len()
            invariant
                i <= self.entries@.len(),
                forall|j: int| 0 <= j < i ==> (#[trigger] self.entries@[j]).0@ != key@,
            decreases self.entries@.len() - i,
        {
            if same_text(self.entries[i].0.as_str(), key) {
                proof {
                    lookup_skips(self.entries@, key@, i as int);
                }
                return Some(i);
            }
            i = i + 1;
        }
        proof {
            lookup_skips(self.entries@, key@, i as int);
        }
        None
    }

    /// The value under a key.
    pub fn get(&self, key: &str) -> (r: Option<&T>)
        ensures
            match r {
                Some(v) => self@.contains_key(key@) && *v == self@[key@],
                None => !self@.contains_key(key@),
            },
    {
        match self.index_of(key) {
            Some(i) => Some(&self.entries[i].1),
            None => None,
        }
    }

    /// Puts a value under a key, in place of any that is there.
    pub fn insert(&mut self, key: String, value: T)
        ensures
            final(self)@ == old(self)@.insert(key@, value),
    {
        let ghost before = self.entries@;
        let ghost entry = (key, value);
        match self.index_of(key.as_str()) {
            Some(i) => {
                self.entries[i] = (key, value);
                proof {
                    let after = before.update(i as int, entry);
                    lookup_skips(after, entry.0@, i as int);
                    assert forall|k: Seq<char>| k != entry.0@ implies #[trigger] lookup(after, k)
                        == lookup(before, k) by {
                        lookup_of_other(before, i as int, entry, k);
                    }
                    assert(self.entries@ == after);
                }
            },
            None => {
                self.entries.push((key, value));
                proof {
                    assert forall|k: Seq<char>| #[trigger] lookup(before.push(entry), k) == (
                    if lookup(before, k) is Some {
                        lookup(before, k)
                    } else if entry.0@ == k {
                        Some(entry.1)
                    } else {
                        None
                    }) by {
                        lookup_of_push(before, entry, k);
                    }
                    assert(self.entries@ == before.push(entry));
                }
            },
        }
        assert(self@ =~= old(self)@.insert(entry.0@, entry.1));
    }

    /// The keys. Each key of the map stands in the list once, and nothing else does.
    pub fn keys(&self) -> (r: Vec<String>)
        ensures
            all_different(views(r@)),
            forall|i: int| 0 <= i < r@.len() ==> self@.contains_key((#[trigger] r@[i])@),
            forall|k: Seq<char>|
                self@.contains_key(k) ==> exists|i: int|
                    0 <= i < r@.len() && (#[trigger] r@[i])@ == k,
    {
        let mut r: Vec<String> = Vec::new();
        let mut i: usize = 0;
        while i < self.entries.len()
            invariant
                i <= self.entries@.len(),
                all_different(views(r@)),
                forall|j: int| 0 <= j < r@.len() ==> self@.contains_key((#[trigger] r@[j])@),
                forall|j: int|
                    0 <= j < i ==> views(r@).contains((#[trigger] self.entries@[j]).0@),
            decreases self.entries@.len() - i,
        {
            let ghost before = r@;
            let key = self.entries[i].0.as_str();
            proof {
                lookup_at(self.entries@, i as int);
            }
            if !holds_text(&r, key) {
                r.push(self.entries[i].0.clone());
                proof {
                    assert(views(r@) =~= views(before).push(key@));
                    assert(views(r@)[before.len() as int] == key@);
                    assert forall|j: int| 0 <= j < i implies views(r@).contains(
                        (#[trigger] self.entries@[j]).0@,
                    ) by {
                        let k = choose|k: int|
                            0 <= k < views(before).len() && views(before)[k]
                                == self.entries@[j].0@;
                        assert(views(r@)[k] == self.entries@[j].0@);
                    }
                }
            }
            i = i + 1;
        }
        proof {
            assert forall|k: Seq<char>| self@.contains_key(k) implies exists|j: int|
                0 <= j < r@.len() && (#[trigger] r@[j])@ == k by {
                lookup_found(self.entries@, k);
                let j = choose|j: int|
                    0 <= j < self.entries@.len() && (#[trigger] self.entries@[j]).0@ == k;
                let n = choose|n: int| 0 <= n < views(r@).len() && views(r@)[n] == k;
                assert(r@[n]@ == k);
            }
        }
        r
    }
}

/// `keys` are the keys of the map in alphabetical order.
pub open spec fn sorted_keys<T>(keys: Seq<Seq<char>>, m: Map<Seq<char>, T>) -> bool {
    &&& forall|i: int, j: int| 0 <= i < j < keys.len() ==> text_before(keys[i], keys[j])
    &&& forall|k: Seq<char>| #[trigger] m.contains_key(k) <==> keys.contains(k)
}

impl<T> AssetMap<T> {
    /// The keys in alphabetical order.
    pub fn keys_in_order(&self) -> (r: Vec<String>)
        ensures
            sorted_keys(views(r@), self@),
    {
        let names = self.keys();
        let ghost all = views(names@);
        let order = sort_texts(&names);
        let mut r: Vec<String> = Vec::new();
        let mut i: usize = 0;
        while i < order.len()
            invariant
                i <= order@.len(),
                r@.len() == i,
                forall|k: int| 0 <= k < order@.len() ==> #[trigger] order@[k] < names@.len(),
                forall|k: int| 0 <= k < i ==> #[trigger] r@[k] == names@[order@[k] as int],
            decreases order@.len() - i,
        {
            r.push(names[order[i]].clone());
            i = i + 1;
        }
        proof {
            text_order_is_strict(all);
            let keys = views(r@);
            let before = index_order(all);
            assert forall|i: int, j: int| 0 <= i < j < keys.len() implies text_before(
                keys[i],
                keys[j],
            ) by {
                assert(before(order@[i] as int, order@[j] as int));
                assert(r@[i] == names@[order@[i] as int]);
                assert(r@[j] == names@[order@[j] as int]);
            }
            assert forall|k: Seq<char>| #[trigger]
                self@.contains_key(k) <==> keys.contains(k) by {
                if self@.contains_key(k) {
                    let i = choose|i: int| 0 <= i < names@.len() && (#[trigger] names@[i])@ == k;
                    sorted_order_covers(order@, before, all.len() as int, i);
                    let j = choose|j: int| 0 <= j < order@.len() && #[trigger] order@[j] == i;
                    assert(r@[j] == names@[i]);
                    assert(keys[j] == k);
                }
                if keys.contains(k) {
                    let j = choose|j: int| 0 <= j < keys.len() && keys[j] == k;
                    assert(r@[j] == names@[order@[j] as int]);
                    assert(self@.contains_key(names@[order@[j] as int]@));
                }
            }
        }
        r
    }
}

impl<T: Copy> AssetMap<T> {
    /// The same map again.
    pub fn copied(&self) -> (r: Self)
        ensures
            r@ == self@,
    {
        let mut entries: Vec<(String, T)> = Vec::new();
        let mut i: usize = 0;
        while i < self.entries.len()
            invariant
                i <= self.entries@.len(),
                entries@ == self.entries@.take(i as int),
            decreases self.entries@.len() - i,
        {
            let key = self.entries[i].0.clone();
            let value = self.entries[i].1;
            entries.push((key, value));
            assert(self.entries@.take(i + 1) =~= self.entries@.take(i as int).push(
                self.entries@[i as int],
            ));
            i = i + 1;
        }
        assert(entries@ =~= self.entries@);
        AssetMap { entries }
    }
}

impl<T> Default for AssetMap<T> {
    fn default() -> (r: Self)
        ensures
            r@ == Map::<Seq<char>, T>::empty(),
    {
        Self::new()
    }
}

} // verus!
