//! Tables: associative containers keyed by integer or byte string.

use vstd::prelude::*;
use vstd::string::StringSliceAdditionalSpecFns;
use crate::value::{bytes_eq, copy_bytes, Value, ValueView};

verus! {

/// A table key.
#[derive(Debug)]
pub enum Key {
    Int(i64),
    Str(Vec<u8>),
}

/// The mathematical content of a [`Key`].
pub enum KeyView {
    Int(i64),
    Str(Seq<u8>),
}

impl View for Key {
    type V = KeyView;

    open spec fn view(&self) -> KeyView {
        match self {
            Key::Int(i) => KeyView::Int(*i),
            Key::Str(s) => KeyView::Str(s@),
        }
    }
}

impl Key {
    /// A string key holding the bytes of `name`.
    pub fn named(name: &str) -> (r: Key)
        ensures
            r@ == KeyView::Str(name.spec_bytes()),
    {
        Key::Str(copy_bytes(name.as_bytes()))
    }

    pub fn same(&self, other: &Key) -> (r: bool)
        ensures
            r == (self@ == other@),
    {
        match (self, other) {
            (Key::Int(a), Key::Int(b)) => *a == *b,
            (Key::Str(a), Key::Str(b)) => bytes_eq(a.as_slice(), b.as_slice()),
            _ => false,
        }
    }
}

/// One key with the value stored under it.
struct Entry {
    key: Key,
    value: Value,
}

/// What a read of key `k` yields on a table with content `m`: the stored value, or `nil`
/// for a key that is not present.
pub open spec fn lookup(m: Map<KeyView, ValueView>, k: KeyView) -> ValueView {
    if m.contains_key(k) {
        m[k]
    } else {
        ValueView::Nil
    }
}

/// What a write of `v` under `k` leaves of a table with content `m`: storing `nil` removes
/// the key, anything else replaces or adds the binding.
pub open spec fn stored(m: Map<KeyView, ValueView>, k: KeyView, v: ValueView) -> Map<
    KeyView,
    ValueView,
> {
    if v is Nil {
        m.remove(k)
    } else {
        m.insert(k, v)
    }
}

/// An associative container. Insertion order carries no meaning.
pub struct Table {
    entries: Vec<Entry>,
}

impl Table {
    spec fn has(&self, k: KeyView) -> bool {
        exists|i: int| 0 <= i < self.entries.len() && (#[trigger] self.entries[i]).key@ == k
    }

    spec fn slot(&self, k: KeyView) -> int {
        choose|i: int| 0 <= i < self.entries.len() && (#[trigger] self.entries[i]).key@ == k
    }

    /// No key is stored twice and no stored value is `nil`.
    pub closed spec fn wf(&self) -> bool {
        &&& forall|i: int, j: int|
            0 <= i < j < self.entries.len() ==> (#[trigger] self.entries[i]).key@ != (
            #[trigger] self.entries[j]).key@
        &&& forall|i: int|
            0 <= i < self.entries.len() ==> !((#[trigger] self.entries[i]).value@ is Nil)
    }

    /// The bindings of this table.
    pub closed spec fn view(&self) -> Map<KeyView, ValueView> {
        Map::new(|k: KeyView| self.has(k), |k: KeyView| self.entries[self.slot(k)].value@)
    }

    proof fn lemma_slot(&self, i: int)
        requires
            self.wf(),
            0 <= i < self.entries.len(),
        ensures
            self.has(self.entries[i].key@),
            self.slot(self.entries[i].key@) == i,
            self@.contains_key(self.entries[i].key@),
            self@[self.entries[i].key@] == self.entries[i].value@,
    {
        let k = self.entries[i].key@;
        assert(self.has(k));
        let j = self.slot(k);
        if j < i {
            assert(self.entries[j].key@ != self.entries[i].key@);
        } else if i < j {
            assert(self.entries[i].key@ != self.entries[j].key@);
        }
    }

    /// A table never holds `nil`: what is stored under a key is a value.
    pub proof fn law_no_nil_stored(&self, k: KeyView)
        requires
            self.wf(),
            self@.contains_key(k),
        ensures
            !(self@[k] is Nil),
    {
        let i = self.slot(k);
        assert(!(self.entries[i].value@ is Nil));
    }

    /// An empty table.
    pub fn new() -> (r: Table)
        ensures
            r.wf(),
            r@ == Map::<KeyView, ValueView>::empty(),
    {
        let r = Table { entries: Vec::new() };
        assert(r@ =~= Map::<KeyView, ValueView>::empty());
        r
    }

    fn find(&self, key: &Key) -> (r: Option<usize>)
        requires
            self.wf(),
        ensures
            r matches Some(i) ==> i < self.entries.len() && self.entries[i as int].key@ == key@,
            r is None ==> !self.has(key@),
    {
        let mut i: usize = 0;
        while i < self.entries.len()
            invariant
                i <= self.entries.len(),
                forall|j: int| 0 <= j < i ==> (#[trigger] self.entries[j]).key@ != key@,
            decreases self.entries.len() - i,
        {
            if self.entries[i].key.same(key) {
                return Some(i);
            }
            i += 1;
        }
        None
    }

    /// The value stored under `key`, or `nil` when there is none.
    pub fn get(&self, key: &Key) -> (r: Value)
        requires
            self.wf(),
        ensures
            r@ == lookup(self@, key@),
    {
        match self.find(key) {
            Some(i) => {
                proof {
                    self.lemma_slot(i as int);
                }
                self.entries[i].value.dup()
            },
            None => Value::Nil,
        }
    }

    /// Whether a value is stored under `key`.
    pub fn contains(&self, key: &Key) -> (r: bool)
        requires
            self.wf(),
        ensures
            r == self@.contains_key(key@),
    {
        match self.find(key) {
            Some(i) => {
                proof {
                    self.lemma_slot(i as int);
                }
                true
            },
            None => false,
        }
    }

    /// Stores `value` under `key`. Storing `nil` removes the key; storing anything else
    /// under a key already present replaces the earlier value.
    pub fn set(&mut self, key: Key, value: Value)
        requires
            old(self).wf(),
        ensures
            final(self).wf(),
            final(self)@ == stored(old(self)@, key@, value@),
    {
        let ghost k = key@;
        let ghost v = value@;
        let ghost before = *self;
        let found = self.find(&key);
        let nil = value.is_nil();
        match found {
            Some(i) => {
                if nil {
                    self.entries.remove(i);
                    assert(self.wf()) by {
                        assert forall|a: int, b: int| 0 <= a < b < self.entries.len() implies (
                        #[trigger] self.entries[a]).key@ != (#[trigger] self.entries[b]).key@ by {
                            let a0 = if a < i { a } else { a + 1 };
                            let b0 = if b < i { b } else { b + 1 };
                            assert(self.entries[a] == before.entries[a0]);
                            assert(self.entries[b] == before.entries[b0]);
                        }
                        assert forall|a: int| 0 <= a < self.entries.len() implies !((
                        #[trigger] self.entries[a]).value@ is Nil) by {
                            let a0 = if a < i { a } else { a + 1 };
                            assert(self.entries[a] == before.entries[a0]);
                        }
                    }
                    assert(self@ =~= before@.remove(k)) by {
                        assert forall|q: KeyView| self.has(q) <==> (before.has(q) && q != k) by {
                            if self.has(q) {
                                let a = self.slot(q);
                                let a0 = if a < i { a } else { a + 1 };
                                assert(self.entries[a] == before.entries[a0]);
                                before.lemma_slot(a0);
                                before.lemma_slot(i as int);
                            }
                            if before.has(q) && q != k {
                                let a0 = before.slot(q);
                                let a = if a0 < i { a0 } else { a0 - 1 };
                                assert(self.entries[a] == before.entries[a0]);
                            }
                        }
                        assert forall|q: KeyView| self.has(q) implies self.entries[self.slot(
                            q,
                        )].value@ == before.entries[before.slot(q)].value@ by {
                            let a = self.slot(q);
                            let a0 = if a < i { a } else { a + 1 };
                            assert(self.entries[a] == before.entries[a0]);
                            before.lemma_slot(a0);
                        }
                    }
                } else {
                    self.entries.set(i, Entry { key, value });
                    assert(self.wf()) by {
                        assert forall|a: int, b: int| 0 <= a < b < self.entries.len() implies (
                        #[trigger] self.entries[a]).key@ != (#[trigger] self.entries[b]).key@ by {
                            assert(self.entries[a].key@ == before.entries[a].key@);
                            assert(self.entries[b].key@ == before.entries[b].key@);
                        }
                    }
                    assert(self@ =~= before@.insert(k, v)) by {
                        assert forall|q: KeyView| self.has(q) <==> (before.has(q) || q == k) by {
                            if self.has(q) {
                                let a = self.slot(q);
                                assert(self.entries[a].key@ == before.entries[a].key@);
                            }
                            if before.has(q) {
                                let a = before.slot(q);
                                assert(self.entries[a].key@ == before.entries[a].key@);
                            }
                            if q == k {
                                assert(self.entries[i as int].key@ == k);
                            }
                        }
                        assert forall|q: KeyView| self.has(q) implies self.entries[self.slot(
                            q,
                        )].value@ == (if q == k {
                            v
                        } else {
                            before.entries[before.slot(q)].value@
                        }) by {
                            let a = self.slot(q);
                            self.lemma_slot(a);
                            self.lemma_slot(i as int);
                            if q != k {
                                assert(self.entries[a] == before.entries[a]);
                                before.lemma_slot(a);
                            }
                        }
                    }
                }
            },
            None => {
                if nil {
                    assert(self@ =~= before@.remove(k));
                } else {
                    self.entries.push(Entry { key, value });
                    let ghost n = before.entries.len() as int;
                    assert(self.wf()) by {
                        assert forall|a: int, b: int| 0 <= a < b < self.entries.len() implies (
                        #[trigger] self.entries[a]).key@ != (#[trigger] self.entries[b]).key@ by {
                            assert(self.entries[a] == before.entries[a]);
                            if b < n {
                                assert(self.entries[b] == before.entries[b]);
                            }
                        }
                        assert forall|a: int| 0 <= a < self.entries.len() implies !((
                        #[trigger] self.entries[a]).value@ is Nil) by {
                            if a < n {
                                assert(self.entries[a] == before.entries[a]);
                            }
                        }
                    }
                    assert(self@ =~= before@.insert(k, v)) by {
                        assert forall|q: KeyView| self.has(q) <==> (before.has(q) || q == k) by {
                            if self.has(q) {
                                let a = self.slot(q);
                                if a < n {
                                    assert(self.entries[a] == before.entries[a]);
                                }
                            }
                            if before.has(q) {
                                let a = before.slot(q);
                                assert(self.entries[a] == before.entries[a]);
                            }
                            if q == k {
                                assert(self.entries[n].key@ == k);
                            }
                        }
                        assert forall|q: KeyView| self.has(q) implies self.entries[self.slot(
                            q,
                        )].value@ == (if q == k {
                            v
                        } else {
                            before.entries[before.slot(q)].value@
                        }) by {
                            let a = self.slot(q);
                            self.lemma_slot(a);
                            self.lemma_slot(n);
                            if q != k {
                                assert(self.entries[a] == before.entries[a]);
                                before.lemma_slot(a);
                            }
                        }
                    }
                }
            },
        }
    }
}

} // verus!
