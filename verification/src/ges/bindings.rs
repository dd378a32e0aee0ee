//! The bindings between properties of a primary and of a replica.

use crate::text::str_eq;
use vstd::prelude::*;

verus! {

/// A binding, known by a number: it feeds the property `name` of the object `child`.
#[derive(Debug)]
pub struct PropertyBinding {
    pub child: u64,
    pub name: String,
    pub binding: u64,
}

/// The bindings of a replica, one at most for each property of each object.
#[derive(Debug)]
pub struct PropertyBindings {
    pub entries: Vec<PropertyBinding>,
}

pub open spec fn key_of(entry: PropertyBinding) -> (u64, Seq<char>) {
    (entry.child, entry.name@)
}

/// Whether the entry at `i` is the one for a key.
pub open spec fn stands_at(
    entries: Seq<PropertyBinding>,
    key: (u64, Seq<char>),
    i: int,
) -> bool {
    0 <= i < entries.len() && key_of(entries[i]) == key
}

impl View for PropertyBindings {
    type V = Map<(u64, Seq<char>), u64>;

    open spec fn view(&self) -> Map<(u64, Seq<char>), u64> {
        Map::new(
            |key: (u64, Seq<char>)| exists|i: int| stands_at(self.entries@, key, i),
            |key: (u64, Seq<char>)|
                self.entries@[choose|i: int| stands_at(self.entries@, key, i)].binding,
        )
    }
}

impl PropertyBindings {
    /// No property of an object has two entries.
    pub open spec fn wf(self) -> bool {
        forall|i: int, j: int|
            0 <= i < j < self.entries.len() ==> key_of(#[trigger] self.entries[i]) != key_of(
                #[trigger] self.entries[j],
            )
    }

    /// No bindings.
    pub fn new() -> (r: PropertyBindings)
        ensures
            r.wf(),
            r@ == Map::<(u64, Seq<char>), u64>::empty(),
    {
        let r = PropertyBindings { entries: Vec::new() };
        assert(r@ =~= Map::<(u64, Seq<char>), u64>::empty());
        r
    }

    proof fn lemma_view_at(self, i: int)
        requires
            self.wf(),
            0 <= i < self.entries.len(),
        ensures
            self@.dom().contains(key_of(self.entries[i])),
            self@[key_of(self.entries[i])] == self.entries[i].binding,
    {
        let key = key_of(self.entries[i]);
        assert(stands_at(self.entries@, key, i));
        let j = choose|j: int| stands_at(self.entries@, key, j);
        assert(stands_at(self.entries@, key, j));
        assert(i == j);
    }

    fn position(&self, child: u64, name: &str) -> (r: Option<usize>)
        requires
            self.wf(),
        ensures
            match r {
                Some(i) => stands_at(self.entries@, (child, name@), i as int),
                None => !self@.dom().contains((child, name@)),
            },
    {
        let mut i: usize = 0;
        while i < self.entries.len()
            invariant
                i <= self.entries.len(),
                forall|k: int| 0 <= k < i ==> !stands_at(self.entries@, (child, name@), k),
            decreases self.entries.len() - i,
        {
            if self.entries[i].child == child && str_eq(self.entries[i].name.as_str(), name) {
                return Some(i);
            }
            i = i + 1;
        }
        None
    }

    /// Stores a binding, in place of the one that the property had.
    pub fn insert(&mut self, child: u64, name: String, binding: u64)
        requires
            old(self).wf(),
        ensures
            final(self).wf(),
            final(self)@ == old(self)@.insert((child, name@), binding),
    {
        let ghost before = *self;
        let ghost key = (child, name@);
        let removed = self.remove(child, name.as_str());
        let ghost without = *self;
        self.entries.push(PropertyBinding { child, name, binding });
        proof {
            let n = without.entries@.len() as int;
            assert forall|i: int, j: int| 0 <= i < j < self.entries.len() implies key_of(
                #[trigger] self.entries[i],
            ) != key_of(#[trigger] self.entries[j]) by {
                if j == n {
                    assert(self.entries@[i] == without.entries@[i]);
                    if key_of(without.entries@[i]) == key {
                        without.lemma_view_at(i);
                    }
                }
            }
            assert(self.wf());
            assert forall|k: (u64, Seq<char>)| #[trigger]
                self@.dom().contains(k) <==> before@.insert(key, binding).dom().contains(k) by {
                if self@.dom().contains(k) {
                    let i = choose|i: int| stands_at(self.entries@, k, i);
                    assert(stands_at(self.entries@, k, i));
                    if i < n {
                        assert(stands_at(without.entries@, k, i));
                        without.lemma_view_at(i);
                    }
                }
                if before@.insert(key, binding).dom().contains(k) {
                    if k == key {
                        assert(stands_at(self.entries@, k, n));
                    } else {
                        assert(without@.dom().contains(k));
                        let i = choose|i: int| stands_at(without.entries@, k, i);
                        assert(stands_at(without.entries@, k, i));
                        assert(stands_at(self.entries@, k, i));
                    }
                }
            }
            assert forall|k: (u64, Seq<char>)| #[trigger]
                self@.dom().contains(k) implies self@[k] == before@.insert(key, binding)[k] by {
                let i = choose|i: int| stands_at(self.entries@, k, i);
                assert(stands_at(self.entries@, k, i));
                self.lemma_view_at(i);
                if i < n {
                    assert(stands_at(without.entries@, k, i));
                    without.lemma_view_at(i);
                    if k == key {
                        assert(false);
                    }
                }
            }
            assert(self@ =~= before@.insert(key, binding));
        }
    }

    /// Takes the binding of a property out, where it has one.
    pub fn remove(&mut self, child: u64, name: &str) -> (binding: Option<u64>)
        requires
            old(self).wf(),
        ensures
            final(self).wf(),
            final(self)@ == old(self)@.remove((child, name@)),
            binding == if old(self)@.dom().contains((child, name@)) {
                Some(old(self)@[(child, name@)])
            } else {
                None
            },
    {
        let ghost before = *self;
        let ghost key = (child, name@);
        match self.position(child, name) {
            None => {
                proof {
                    assert(self@ =~= before@.remove(key));
                }
                None
            },
            Some(at) => {
                let entry = self.entries.remove(at);
                proof {
                    before.lemma_view_at(at as int);
                    assert(self.entries@ =~= before.entries@.remove(at as int));
                    let whole = |k: int|
                        if k < at {
                            k
                        } else {
                            k + 1
                        };
                    assert forall|i: int, j: int| 0 <= i < j < self.entries.len() implies key_of(
                        #[trigger] self.entries[i],
                    ) != key_of(#[trigger] self.entries[j]) by {
                        assert(self.entries@[i] == before.entries@[whole(i)]);
                        assert(self.entries@[j] == before.entries@[whole(j)]);
                    }
                    assert(self.wf());
                    assert forall|k: (u64, Seq<char>)| #[trigger]
                        self@.dom().contains(k) <==> before@.remove(key).dom().contains(k) by {
                        if self@.dom().contains(k) {
                            let i = choose|i: int| stands_at(self.entries@, k, i);
                            assert(stands_at(self.entries@, k, i));
                            assert(stands_at(before.entries@, k, whole(i)));
                        }
                        if before@.remove(key).dom().contains(k) {
                            let i = choose|i: int| stands_at(before.entries@, k, i);
                            assert(stands_at(before.entries@, k, i));
                            let j = if i < at {
                                i
                            } else {
                                i - 1
                            };
                            assert(stands_at(self.entries@, k, j));
                        }
                    }
                    assert forall|k: (u64, Seq<char>)| #[trigger]
                        self@.dom().contains(k) implies self@[k] == before@.remove(key)[k] by {
                        let i = choose|i: int| stands_at(self.entries@, k, i);
                        assert(stands_at(self.entries@, k, i));
                        self.lemma_view_at(i);
                        assert(self.entries@[i] == before.entries@[whole(i)]);
                        before.lemma_view_at(whole(i));
                    }
                    assert(self@ =~= before@.remove(key));
                }
                Some(entry.binding)
            },
        }
    }
}

} // verus!
