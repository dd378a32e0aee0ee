//! A small map from texts to values.

use crate::text::str_eq;
use vstd::prelude::*;

verus! {

/// A text and its value.
#[derive(Debug)]
pub struct TextEntry<V> {
    pub key: String,
    pub value: V,
}

/// Values by text, in the order in which the texts came. No text is there twice.
#[derive(Debug)]
pub struct TextMap<V> {
    pub entries: Vec<TextEntry<V>>,
}

/// Whether the entry at `i` is the one for a key.
pub open spec fn stands_at<V>(entries: Seq<TextEntry<V>>, key: Seq<char>, i: int) -> bool {
    0 <= i < entries.len() && entries[i].key@ == key
}

impl<V> View for TextMap<V> {
    type V = Map<Seq<char>, V>;

    open spec fn view(&self) -> Map<Seq<char>, V> {
        Map::new(
            |key: Seq<char>| exists|i: int| stands_at(self.entries@, key, i),
            |key: Seq<char>|
                self.entries@[choose|i: int| stands_at(self.entries@, key, i)].value,
        )
    }
}

impl<V> TextMap<V> {
    pub open spec fn wf(self) -> bool {
        forall|i: int, j: int|
            0 <= i < j < self.entries.len() ==> (#[trigger] self.entries[i]).key@ != (
            #[trigger] self.entries[j]).key@
    }

    /// The map without entries.
    pub fn new() -> (r: TextMap<V>)
        ensures
            r.wf(),
            r@ == Map::<Seq<char>, V>::empty(),
            r.entries.len() == 0,
    {
        let r = TextMap { entries: Vec::new() };
        assert(r@ =~= Map::<Seq<char>, V>::empty());
        r
    }

    /// What stands at a place is what its text maps to.
    pub proof fn lemma_view_at(self, i: int)
        requires
            self.wf(),
            0 <= i < self.entries.len(),
        ensures
            self@.dom().contains(self.entries[i].key@),
            self@[self.entries[i].key@] == self.entries[i].value,
    {
        let key = self.entries[i].key@;
        assert(stands_at(self.entries@, key, i));
        let j = choose|j: int| stands_at(self.entries@, key, j);
        assert(stands_at(self.entries@, key, j));
        assert(i == j);
    }

    /// The place of a text.
    pub fn position(&self, key: &str) -> (r: Option<usize>)
        requires
            self.wf(),
        ensures
            match r {
                Some(i) => {
                    &&& stands_at(self.entries@, key@, i as int)
                    &&& self@.dom().contains(key@)
                    &&& self@[key@] == self.entries@[i as int].value
                },
                None => !self@.dom().contains(key@),
            },
    {
        let mut i: usize = 0;
        while i < self.entries.len()
            invariant
                self.wf(),
                i <= self.entries.len(),
                forall|k: int| 0 <= k < i ==> !stands_at(self.entries@, key@, k),
            decreases self.entries.len() - i,
        {
            if str_eq(self.entries[i].key.as_str(), key) {
                proof {
                    self.lemma_view_at(i as int);
                }
                return Some(i);
            }
            i = i + 1;
        }
        None
    }

    pub fn contains_key(&self, key: &str) -> (r: bool)
        requires
            self.wf(),
        ensures
            r == self@.dom().contains(key@),
    {
        self.position(key).is_some()
    }

    pub fn get(&self, key: &str) -> (r: Option<&V>)
        requires
            self.wf(),
        ensures
            match r {
                Some(value) => self@.dom().contains(key@) && *value == self@[key@],
                None => !self@.dom().contains(key@),
            },
    {
        match self.position(key) {
            Some(i) => Some(&self.entries[i].value),
            None => None,
        }
    }

    /// A change of the value at one place is a change of what its text maps to.
    pub proof fn lemma_replaced_at(self, after: TextMap<V>, i: int)
        requires
            self.wf(),
            0 <= i < self.entries.len(),
            after.entries.len() == self.entries.len(),
            after.entries@[i].key == self.entries@[i].key,
            forall|k: int|
                0 <= k < self.entries.len() && k != i ==> after.entries@[k] == self.entries@[k],
        ensures
            after.wf(),
            after@ == self@.insert(self.entries@[i].key@, after.entries@[i].value),
    {
        let key = self.entries@[i].key@;
        assert forall|a: int, b: int| 0 <= a < b < after.entries.len() implies (
        #[trigger] after.entries[a]).key@ != (#[trigger] after.entries[b]).key@ by {
            assert(after.entries@[a].key == self.entries@[a].key);
            assert(after.entries@[b].key == self.entries@[b].key);
        }
        assert forall|k: Seq<char>| #[trigger]
            after@.dom().contains(k) <==> self@.insert(
                key,
                after.entries@[i].value,
            ).dom().contains(k) by {
            if after@.dom().contains(k) {
                let j = choose|j: int| stands_at(after.entries@, k, j);
                assert(stands_at(after.entries@, k, j));
                assert(stands_at(self.entries@, k, j));
            }
            if self@.dom().contains(k) {
                let j = choose|j: int| stands_at(self.entries@, k, j);
                assert(stands_at(self.entries@, k, j));
                assert(stands_at(after.entries@, k, j));
            }
            if k == key {
                assert(stands_at(after.entries@, k, i));
            }
        }
        assert forall|k: Seq<char>| #[trigger] after@.dom().contains(k) implies after@[k]
            == self@.insert(key, after.entries@[i].value)[k] by {
            let j = choose|j: int| stands_at(after.entries@, k, j);
            assert(stands_at(after.entries@, k, j));
            after.lemma_view_at(j);
            self.lemma_view_at(j);
            if j == i {
            } else {
                assert(k != key);
            }
        }
        assert(after@ =~= self@.insert(key, after.entries@[i].value));
    }

    proof fn lemma_appended(self, after: TextMap<V>)
        requires
            self.wf(),
            after.entries@.len() == self.entries@.len() + 1,
            after.entries@.drop_last() == self.entries@,
            !self@.dom().contains(after.entries@.last().key@),
        ensures
            after.wf(),
            after@ == self@.insert(after.entries@.last().key@, after.entries@.last().value),
    {
        let n = self.entries@.len() as int;
        let key = after.entries@.last().key@;
        assert forall|k: int| 0 <= k < n implies after.entries@[k] == self.entries@[k] by {
            assert(after.entries@.drop_last()[k] == self.entries@[k]);
        }
        assert forall|a: int, b: int| 0 <= a < b < after.entries.len() implies (
        #[trigger] after.entries[a]).key@ != (#[trigger] after.entries[b]).key@ by {
            assert(after.entries@[a] == self.entries@[a]);
            if b == n {
                assert(stands_at(self.entries@, self.entries@[a].key@, a));
            } else {
                assert(after.entries@[b] == self.entries@[b]);
            }
        }
        let expected = self@.insert(key, after.entries@.last().value);
        assert forall|k: Seq<char>| #[trigger]
            after@.dom().contains(k) <==> expected.dom().contains(k) by {
            if after@.dom().contains(k) {
                let j = choose|j: int| stands_at(after.entries@, k, j);
                assert(stands_at(after.entries@, k, j));
                if j < n {
                    assert(stands_at(self.entries@, k, j));
                }
            }
            if self@.dom().contains(k) {
                let j = choose|j: int| stands_at(self.entries@, k, j);
                assert(stands_at(self.entries@, k, j));
                assert(stands_at(after.entries@, k, j));
            }
            if k == key {
                assert(stands_at(after.entries@, k, n));
            }
        }
        assert forall|k: Seq<char>| #[trigger] after@.dom().contains(k) implies after@[k]
            == expected[k] by {
            let j = choose|j: int| stands_at(after.entries@, k, j);
            assert(stands_at(after.entries@, k, j));
            after.lemma_view_at(j);
            if j < n {
                self.lemma_view_at(j);
            }
        }
        assert(after@ =~= expected);
    }

    /// Sets the value of a text, in place of the one that it had.
    pub fn insert(&mut self, key: String, value: V)
        requires
            old(self).wf(),
        ensures
            final(self).wf(),
            final(self)@ == old(self)@.insert(key@, value),
    {
        let ghost before = *self;
        match self.position(key.as_str()) {
            Some(i) => {
                self.entries[i].value = value;
                proof {
                    before.lemma_replaced_at(*self, i as int);
                }
            },
            None => {
                self.entries.push(TextEntry { key, value });
                proof {
                    assert(self.entries@.drop_last() =~= before.entries@);
                    before.lemma_appended(*self);
                }
            },
        }
    }

    /// Takes a text out, with its value.
    pub fn remove(&mut self, key: &str) -> (r: Option<V>)
        requires
            old(self).wf(),
        ensures
            final(self).wf(),
            final(self)@ == old(self)@.remove(key@),
            match r {
                Some(value) => old(self)@.dom().contains(key@) && value == old(self)@[key@],
                None => !old(self)@.dom().contains(key@),
            },
    {
        let ghost before = *self;
        match self.position(key) {
            None => {
                proof {
                    assert(self@ =~= before@.remove(key@));
                }
                None
            },
            Some(at) => {
                let entry = self.entries.remove(at);
                proof {
                    before.lemma_removed(*self, at as int);
                }
                Some(entry.value)
            },
        }
    }

    proof fn lemma_removed(self, after: TextMap<V>, at: int)
        requires
            self.wf(),
            0 <= at < self.entries.len(),
            after.entries@ == self.entries@.remove(at),
        ensures
            after.wf(),
            after@ == self@.remove(self.entries@[at].key@),
    {
        let key = self.entries@[at].key@;
        let whole = |k: int|
            if k < at {
                k
            } else {
                k + 1
            };
        assert forall|i: int, j: int| 0 <= i < j < after.entries.len() implies (
        #[trigger] after.entries[i]).key@ != (#[trigger] after.entries[j]).key@ by {
            assert(after.entries@[i] == self.entries@[whole(i)]);
            assert(after.entries@[j] == self.entries@[whole(j)]);
        }
        assert forall|k: Seq<char>| #[trigger]
            after@.dom().contains(k) <==> self@.remove(key).dom().contains(k) by {
            if after@.dom().contains(k) {
                let i = choose|i: int| stands_at(after.entries@, k, i);
                assert(stands_at(after.entries@, k, i));
                assert(stands_at(self.entries@, k, whole(i)));
            }
            if self@.remove(key).dom().contains(k) {
                let i = choose|i: int| stands_at(self.entries@, k, i);
                assert(stands_at(self.entries@, k, i));
                let j = if i < at {
                    i
                } else {
                    i - 1
                };
                assert(stands_at(after.entries@, k, j));
            }
        }
        assert forall|k: Seq<char>| #[trigger] after@.dom().contains(k) implies after@[k]
            == self@.remove(key)[k] by {
            let i = choose|i: int| stands_at(after.entries@, k, i);
            assert(stands_at(after.entries@, k, i));
            after.lemma_view_at(i);
            assert(after.entries@[i] == self.entries@[whole(i)]);
            self.lemma_view_at(whole(i));
        }
        assert(after@ =~= self@.remove(key));
    }
}

} // verus!
