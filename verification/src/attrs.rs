//! The attribute mapping that a row hands to the action executor when it is
//! activated: string keys to string values, each key at most once.

use vstd::prelude::*;

verus! {

/// A mapping from string keys to string values.
pub struct Attrs {
    entries: Vec<(String, String)>,
}

/// Whether no key stands twice in `entries`.
pub open spec fn keys_distinct(entries: Seq<(String, String)>) -> bool {
    forall|i: int, j: int|
        0 <= i < entries.len() && 0 <= j < entries.len() && i != j ==> (#[trigger] entries[i]).0@
            != (#[trigger] entries[j]).0@
}

/// Whether `key` is the key of some entry.
pub open spec fn has_key(entries: Seq<(String, String)>, key: Seq<char>) -> bool {
    exists|i: int| 0 <= i < entries.len() && (#[trigger] entries[i]).0@ == key
}

/// The index of an entry with the key `key`.
pub open spec fn key_index(entries: Seq<(String, String)>, key: Seq<char>) -> int {
    choose|i: int| 0 <= i < entries.len() && (#[trigger] entries[i]).0@ == key
}

/// The mapping that a list of entries with distinct keys stands for.
pub open spec fn entries_map(entries: Seq<(String, String)>) -> Map<Seq<char>, Seq<char>> {
    Map::new(
        |k: Seq<char>| has_key(entries, k),
        |k: Seq<char>| entries[key_index(entries, k)].1@,
    )
}

/// The mapping that results from inserting the pairs one after the other:
/// of two pairs with the same key the later one stays.
pub open spec fn pairs_map(pairs: Seq<(&str, &str)>) -> Map<Seq<char>, Seq<char>>
    decreases pairs.len(),
{
    if pairs.len() == 0 {
        Map::empty()
    } else {
        pairs_map(pairs.drop_last()).insert(pairs.last().0@, pairs.last().1@)
    }
}

impl View for Attrs {
    type V = Map<Seq<char>, Seq<char>>;

    closed spec fn view(&self) -> Map<Seq<char>, Seq<char>> {
        entries_map(self.entries@)
    }
}

impl Attrs {
    #[verifier::type_invariant]
    spec fn keys_are_distinct(self) -> bool {
        keys_distinct(self.entries@)
    }

    /// The entries behind the mapping, in the order in which their keys came.
    pub closed spec fn entries(self) -> Seq<(String, String)> {
        self.entries@
    }

    /// The empty mapping: no key has a value, and there is no entry.
    pub fn new() -> (r: Attrs)
        ensures
            r@ == Map::<Seq<char>, Seq<char>>::empty(),
            r.entries() == Seq::<(String, String)>::empty(),
    {
        let r = Attrs { entries: Vec::new() };
        r
    }

    /// The index of the entry for `key`, if there is one.
    fn position(&self, key: &String) -> (r: Option<usize>)
        ensures
            match r {
                Some(i) => i < self.entries@.len() && self.entries@[i as int].0@ == key@,
                None => !has_key(self.entries@, key@),
            },
    {
        let mut i: usize = 0;
        while i < self.entries.len()
            invariant
                i <= self.entries@.len(),
                forall|k: int| 0 <= k < i ==> (#[trigger] self.entries@[k]).0@ != key@,
            decreases self.entries@.len() - i,
        {
            if self.entries[i].0 == *key {
                return Some(i);
            }
            i += 1;
        }
        None
    }

    /// Sets the value for `key`, whether or not the key had one.
    pub fn insert(&mut self, key: String, value: String)
        ensures
            final(self)@ == old(self)@.insert(key@, value@),
    {
        let mut taken = Attrs::new();
        std::mem::swap(self, &mut taken);
        proof {
            use_type_invariant(&taken);
        }
        let ghost before = taken.entries@;
        let found = taken.position(&key);
        let mut entries = taken.entries;
        match found {
            Some(i) => {
                entries.set(i, (key, value));
                proof {
                    let after = entries@;
                    assert forall|k: Seq<char>| has_key(after, k) == has_key(before, k) by {
                        if has_key(before, k) {
                            let j = key_index(before, k);
                            assert(after[j].0@ == k);
                        }
                    }
                }
            },
            None => {
                entries.push((key, value));
                proof {
                    let after = entries@;
                    let n = before.len() as int;
                    assert(after[n].0@ == key@);
                    assert forall|k: Seq<char>| has_key(after, k) == (has_key(before, k) || k
                        == key@) by {
                        if has_key(before, k) {
                            let j = key_index(before, k);
                            assert(after[j].0@ == k);
                        }
                    }
                }
            },
        }
        *self = Attrs { entries };
    }

    /// The value for `key`, if the key has one.
    pub fn get(&self, key: &str) -> (r: Option<&String>)
        ensures
            match r {
                Some(v) => self@.contains_key(key@) && v@ == self@[key@],
                None => !self@.contains_key(key@),
            },
    {
        proof {
            use_type_invariant(self);
        }
        let owned = key.to_owned();
        match self.position(&owned) {
            Some(i) => {
                Some(&self.entries[i].1)
            },
            None => None,
        }
    }

    /// Whether `key` has a value.
    pub fn contains_key(&self, key: &str) -> (r: bool)
        ensures
            r == self@.contains_key(key@),
    {
        self.get(key).is_some()
    }

    /// The number of keys.
    pub fn len(&self) -> (n: usize)
        ensures
            n == self.entries().len(),
    {
        self.entries.len()
    }

    /// The key and the value of the `i`-th entry.
    pub fn entry(&self, i: usize) -> (r: (&String, &String))
        requires
            i < self.entries().len(),
        ensures
            self@.contains_key(r.0@),
            self@[r.0@] == r.1@,
            *r.0 == self.entries()[i as int].0,
            *r.1 == self.entries()[i as int].1,
    {
        proof {
            use_type_invariant(self);
        }
        (&self.entries[i].0, &self.entries[i].1)
    }

    /// A copy of the mapping.
    pub fn duplicate(&self) -> (r: Attrs)
        ensures
            r@ == self@,
    {
        proof {
            use_type_invariant(self);
        }
        let mut entries: Vec<(String, String)> = Vec::new();
        let mut i: usize = 0;
        while i < self.entries.len()
            invariant
                i <= self.entries@.len(),
                entries@.len() == i,
                forall|k: int|
                    0 <= k < i ==> (#[trigger] entries@[k]).0@ == self.entries@[k].0@
                        && entries@[k].1@ == self.entries@[k].1@,
            decreases self.entries@.len() - i,
        {
            let k = self.entries[i].0.clone();
            let v = self.entries[i].1.clone();
            entries.push((k, v));
            i += 1;
        }
        proof {
            let a = self.entries@;
            let b = entries@;
            assert forall|k: Seq<char>| has_key(a, k) == has_key(b, k) by {
                if has_key(a, k) {
                    let j = key_index(a, k);
                    assert(b[j].0@ == k);
                }
            }
        }
        Attrs { entries }
    }
}

/// The mapping with the pairs given. Of two pairs with the same key the later
/// one stays.
pub fn get_attrs_map(in_attrs: Vec<(&str, &str)>) -> (r: Attrs)
    ensures
        r@ == pairs_map(in_attrs@),
{
    let mut attrs = Attrs::new();
    let mut i: usize = 0;
    while i < in_attrs.len()
        invariant
            i <= in_attrs.len(),
            attrs@ == pairs_map(in_attrs@.take(i as int)),
        decreases in_attrs.len() - i,
    {
        let (k, v) = in_attrs[i];
        proof {
            let next = in_attrs@.take(i as int + 1);
            assert(next.drop_last() =~= in_attrs@.take(i as int));
        }
        attrs.insert(k.to_owned(), v.to_owned());
        i += 1;
    }
    assert(in_attrs@.take(in_attrs.len() as int) =~= in_attrs@);
    attrs
}

} // verus!
