//! A map from strings to strings, kept as a list in which no key occurs twice.
//!
//! Labels and file contents are both stored this way. Contracts speak of the
//! mathematical map that the list stands for.

use crate::assoc::{
    distinct_keys, has_key, lemma_map_of_dom, lemma_map_of_entry, lemma_map_of_len,
    lemma_map_of_replace, lemma_push_distinct, map_of,
};
use vstd::prelude::*;

verus! {

/// A finite map from strings to strings.
#[derive(Debug)]
pub struct StringMap {
    entries: Vec<(String, String)>,
}

impl View for StringMap {
    type V = Map<Seq<char>, Seq<char>>;

    open spec fn view(&self) -> Map<Seq<char>, Seq<char>> {
        self.as_map()
    }
}

impl DeepView for StringMap {
    type V = Map<Seq<char>, Seq<char>>;

    open spec fn deep_view(&self) -> Map<Seq<char>, Seq<char>> {
        self.as_map()
    }
}

impl StringMap {
    #[verifier::type_invariant]
    spec fn keys_occur_once(&self) -> bool {
        distinct_keys(self.entries.deep_view())
    }

    /// The map that this value stands for.
    pub closed spec fn as_map(&self) -> Map<Seq<char>, Seq<char>> {
        map_of(self.entries.deep_view())
    }

    /// The empty map.
    pub fn new() -> (m: Self)
        ensures
            m@ == Map::<Seq<char>, Seq<char>>::empty(),
    {
        let entries: Vec<(String, String)> = Vec::new();
        assert(entries.deep_view() =~= Seq::<(Seq<char>, Seq<char>)>::empty());
        StringMap { entries }
    }

    /// Index of the entry that carries `key`, if there is one.
    fn position(&self, key: &String) -> (r: Option<usize>)
        ensures
            match r {
                Some(i) => i < self.entries.len() && self.entries.deep_view()[i as int].0 == key@,
                None => !has_key(self.entries.deep_view(), key@),
            },
    {
        let mut i: usize = 0;
        while i < self.entries.len()
            invariant
                i <= self.entries.len(),
                forall|j: int| 0 <= j < i ==> self.entries.deep_view()[j].0 != key@,
            decreases self.entries.len() - i,
        {
            if self.entries[i].0 == *key {
                return Some(i);
            }
            i += 1;
        }
        None
    }

    /// The value stored under `key`.
    pub fn get(&self, key: &String) -> (r: Option<&String>)
        ensures
            match r {
                Some(v) => self@.dom().contains(key@) && self@[key@] == v@,
                None => !self@.dom().contains(key@),
            },
    {
        proof {
            use_type_invariant(self);
            lemma_map_of_dom(self.entries.deep_view(), key@);
        }
        match self.position(key) {
            Some(i) => {
                proof {
                    lemma_map_of_entry(self.entries.deep_view(), i as int);
                }
                Some(&self.entries[i].1)
            },
            None => None,
        }
    }

    /// Whether `key` has a value.
    pub fn contains_key(&self, key: &String) -> (r: bool)
        ensures
            r == self@.dom().contains(key@),
    {
        self.get(key).is_some()
    }

    /// Stores `value` under `key`, replacing what was there.
    pub fn insert(&mut self, key: String, value: String)
        ensures
            final(self)@ == old(self)@.insert(key@, value@),
    {
        proof {
            use_type_invariant(&*self);
        }
        let ghost before = self.entries.deep_view();
        let found = self.position(&key);
        let mut entries: Vec<(String, String)> = Vec::new();
        assert(entries.deep_view() =~= Seq::<(Seq<char>, Seq<char>)>::empty());
        core::mem::swap(&mut entries, &mut self.entries);
        match found {
            Some(i) => {
                proof {
                    lemma_map_of_replace(before, i as int, value@);
                }
                entries[i] = (key, value);
                assert(entries.deep_view() =~= before.update(i as int, (key@, value@)));
            },
            None => {
                proof {
                    lemma_push_distinct(before, key@, value@);
                }
                entries.push((key, value));
                assert(entries.deep_view() =~= before.push((key@, value@)));
            },
        }
        core::mem::swap(&mut entries, &mut self.entries);
    }

    /// Number of keys.
    pub fn len(&self) -> (n: usize)
        ensures
            self@.dom().finite(),
            n == self@.len(),
    {
        proof {
            use_type_invariant(self);
            lemma_map_of_len(self.entries.deep_view());
        }
        self.entries.len()
    }

    /// Whether the map has no key.
    pub fn is_empty(&self) -> (r: bool)
        ensures
            r == (self@ == Map::<Seq<char>, Seq<char>>::empty()),
    {
        proof {
            use_type_invariant(self);
            lemma_map_of_len(self.entries.deep_view());
            if self.entries.len() == 0 {
                assert(self@ =~= Map::<Seq<char>, Seq<char>>::empty());
            }
        }
        self.entries.len() == 0
    }

    /// The entries as a list in which each key occurs once.
    pub fn to_vec(&self) -> (v: Vec<(String, String)>)
        ensures
            distinct_keys(v.deep_view()),
            map_of(v.deep_view()) == self@,
    {
        proof {
            use_type_invariant(self);
        }
        let mut v: Vec<(String, String)> = Vec::new();
        let mut i: usize = 0;
        while i < self.entries.len()
            invariant
                i <= self.entries.len(),
                v.len() == i,
                forall|j: int|
                    0 <= j < i ==> v[j].0@ == self.entries[j].0@ && v[j].1@ == self.entries[j].1@,
            decreases self.entries.len() - i,
        {
            v.push((self.entries[i].0.clone(), self.entries[i].1.clone()));
            i += 1;
        }
        assert(v.deep_view() =~= self.entries.deep_view());
        v
    }

    /// The map that holds `pairs`, a later pair replacing an earlier one with
    /// the same key.
    pub fn from_vec(pairs: Vec<(String, String)>) -> (m: Self)
        ensures
            m@ == map_of(pairs.deep_view()),
    {
        let mut m = StringMap::new();
        let mut i: usize = 0;
        while i < pairs.len()
            invariant
                i <= pairs.len(),
                m@ == map_of(pairs.deep_view().take(i as int)),
            decreases pairs.len() - i,
        {
            m.insert(pairs[i].0.clone(), pairs[i].1.clone());
            assert(pairs.deep_view().take(i + 1).drop_last() =~= pairs.deep_view().take(i as int));
            i += 1;
        }
        assert(pairs.deep_view().take(i as int) =~= pairs.deep_view());
        m
    }
}

impl Clone for StringMap {
    fn clone(&self) -> (r: Self)
        ensures
            r@ == self@,
    {
        proof {
            use_type_invariant(self);
        }
        let entries = self.to_vec();
        StringMap { entries }
    }
}

} // verus!
