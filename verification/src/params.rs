//! The multi-valued key to values mapping that a decoded query string or
//! form body is handed over as.

use vstd::prelude::*;
use vstd::utf8::{decode_utf8, encode_utf8, encode_utf8_decode_utf8};

verus! {

/// Decides whether two string slices hold the same text.
pub fn same_text(a: &str, b: &str) -> (same: bool)
    ensures
        same == (a@ == b@),
{
    let left = a.as_bytes();
    let right = b.as_bytes();
    proof {
        encode_utf8_decode_utf8(a@);
        encode_utf8_decode_utf8(b@);
    }
    if left.len() != right.len() {
        return false;
    }
    let mut i: usize = 0;
    while i < left.len()
        invariant
            left@ == encode_utf8(a@),
            right@ == encode_utf8(b@),
            left@.len() == right@.len(),
            i <= left@.len(),
            forall|j: int| 0 <= j < i ==> left@[j] == right@[j],
        decreases left@.len() - i,
    {
        if left[i] != right[i] {
            return false;
        }
        i += 1;
    }
    assert(left@ =~= right@);
    assert(decode_utf8(encode_utf8(a@)) == decode_utf8(encode_utf8(b@)));
    true
}

/// A mapping from each key to the values that were given for it, in the
/// order in which they were given.
///
/// A key may be present with no value at all, with one, or with several.
pub struct ParameterMap {
    entries: Vec<(String, Vec<String>)>,
}

impl View for ParameterMap {
    type V = Map<Seq<char>, Seq<Seq<char>>>;

    closed spec fn view(&self) -> Self::V {
        Map::new(
            |key: Seq<char>| exists|i: int| self.first_at(key, i),
            |key: Seq<char>| self.entries@[choose|i: int| self.first_at(key, i)].1.deep_view(),
        )
    }
}

impl ParameterMap {
    /// Whether entry `i` is the first one stored under `key`.
    pub closed spec fn first_at(self, key: Seq<char>, i: int) -> bool {
        &&& 0 <= i < self.entries@.len()
        &&& self.entries@[i].0@ == key
        &&& forall|j: int| 0 <= j < i ==> self.entries@[j].0@ != key
    }

    proof fn lemma_first_at_unique(self, key: Seq<char>, i: int, j: int)
        requires
            self.first_at(key, i),
            self.first_at(key, j),
        ensures
            i == j,
    {
    }

    proof fn lemma_view_at(self, key: Seq<char>, i: int)
        requires
            self.first_at(key, i),
        ensures
            self@.contains_key(key),
            self@[key] == self.entries@[i].1.deep_view(),
    {
        let chosen = choose|k: int| self.first_at(key, k);
        self.lemma_first_at_unique(key, i, chosen);
    }

    proof fn lemma_view_present(self, key: Seq<char>)
        requires
            self@.contains_key(key),
        ensures
            exists|i: int| self.first_at(key, i),
    {
    }

    proof fn lemma_view_absent(self, key: Seq<char>)
        requires
            forall|i: int| 0 <= i < self.entries@.len() ==> self.entries@[i].0@ != key,
        ensures
            !self@.contains_key(key),
    {
    }

    /// The mapping without any key.
    pub fn new() -> (map: Self)
        ensures
            map@ == Map::<Seq<char>, Seq<Seq<char>>>::empty(),
    {
        let map = ParameterMap { entries: Vec::new() };
        assert(map@ =~= Map::<Seq<char>, Seq<Seq<char>>>::empty());
        map
    }

    fn position(&self, key: &str) -> (found: Option<usize>)
        ensures
            match found {
                Some(i) => self.first_at(key@, i as int),
                None => forall|i: int|
                    0 <= i < self.entries@.len() ==> self.entries@[i].0@ != key@,
            },
    {
        let mut i: usize = 0;
        while i < self.entries.len()
            invariant
                i <= self.entries@.len(),
                forall|j: int| 0 <= j < i ==> self.entries@[j].0@ != key@,
            decreases self.entries@.len() - i,
        {
            if same_text(self.entries[i].0.as_str(), key) {
                return Some(i);
            }
            i += 1;
        }
        None
    }

    /// The values given for `key`, or `None` where the key is absent.
    pub fn get(&self, key: &str) -> (found: Option<&Vec<String>>)
        ensures
            match found {
                Some(values) => self@.contains_key(key@) && self@[key@] == values.deep_view(),
                None => !self@.contains_key(key@),
            },
    {
        match self.position(key) {
            Some(i) => {
                proof {
                    self.lemma_view_at(key@, i as int);
                }
                Some(&self.entries[i].1)
            },
            None => {
                proof {
                    self.lemma_view_absent(key@);
                }
                None
            },
        }
    }

    /// Stores `values` under `key`, in place of whatever the key held.
    pub fn insert(&mut self, key: String, values: Vec<String>)
        ensures
            final(self)@ == old(self)@.insert(key@, values.deep_view()),
    {
        let ghost before = *self;
        let ghost text = key@;
        let ghost held = values.deep_view();
        let found = self.position(key.as_str());
        match found {
            Some(i) => {
                self.entries.set(i, (key, values));
                assert(self.first_at(text, i as int));
            },
            None => {
                self.entries.push((key, values));
                assert(self.first_at(text, self.entries@.len() - 1));
            },
        }
        assert forall|other: Seq<char>, i: int|
            #![trigger before.first_at(other, i)]
            #![trigger self.first_at(other, i)]
            other != text implies (before.first_at(other, i) <==> self.first_at(other, i)) by {
            if before.first_at(other, i) {
                assert forall|j: int| 0 <= j < i implies self.entries@[j].0@ != other by {
                    assert(before.entries@[j].0@ != other);
                }
            }
            if self.first_at(other, i) {
                assert forall|j: int| 0 <= j < i implies before.entries@[j].0@ != other by {
                    assert(self.entries@[j].0@ != other);
                }
            }
        }
        assert forall|other: Seq<char>| #[trigger]
            self@.contains_key(other) == before@.insert(text, held).contains_key(other) by {
            if other == text {
                match found {
                    Some(i) => self.lemma_view_at(text, i as int),
                    None => self.lemma_view_at(text, self.entries@.len() - 1),
                }
            } else {
                if before@.contains_key(other) {
                    let i = choose|i: int| before.first_at(other, i);
                    assert(self.first_at(other, i));
                }
                if self@.contains_key(other) {
                    let i = choose|i: int| self.first_at(other, i);
                    assert(before.first_at(other, i));
                }
            }
        }
        assert forall|other: Seq<char>| #[trigger]
            self@.contains_key(other) implies self@[other] == before@.insert(text, held)[other] by {
            if other == text {
                match found {
                    Some(i) => self.lemma_view_at(text, i as int),
                    None => self.lemma_view_at(text, self.entries@.len() - 1),
                }
            } else {
                self.lemma_view_present(other);
                let i = choose|i: int| self.first_at(other, i);
                assert(before.first_at(other, i));
                before.lemma_view_at(other, i);
                self.lemma_view_at(other, i);
            }
        }
        assert(self@ =~= before@.insert(text, held));
    }
}

} // verus!
