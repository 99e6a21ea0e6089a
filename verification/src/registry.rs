//! A keyed registry: at most one item per name, with map-like operations.
use vstd::prelude::*;
use crate::text::text_eq;

verus! {

/// Item stored under `key`, if any.
pub open spec fn reg_lookup<T>(es: Seq<(String, T)>, key: Seq<char>) -> Option<T>
    decreases es.len(),
{
    if es.len() == 0 {
        None
    } else if es[0].0@ == key {
        Some(es[0].1)
    } else {
        reg_lookup(es.drop_first(), key)
    }
}

/// No two entries share a key.
pub open spec fn keys_unique<T>(es: Seq<(String, T)>) -> bool {
    forall|i: int, j: int| 0 <= i < j < es.len() ==> (#[trigger] es[i]).0@ != (#[trigger] es[j]).0@
}

/// Items registered by name.
pub struct Registry<T> {
    entries: Vec<(String, T)>,
}

proof fn lemma_lookup_at<T>(es: Seq<(String, T)>, i: int)
    requires
        keys_unique(es),
        0 <= i < es.len(),
    ensures
        reg_lookup(es, es[i].0@) == Some(es[i].1),
    decreases es.len(),
{
    if i > 0 {
        assert(keys_unique(es.drop_first()));
        lemma_lookup_at(es.drop_first(), i - 1);
        assert(es[0].0@ != es[i].0@);
    }
}

proof fn lemma_lookup_absent<T>(es: Seq<(String, T)>, key: Seq<char>)
    requires
        forall|j: int| 0 <= j < es.len() ==> es[j].0@ != key,
    ensures
        reg_lookup(es, key) is None,
    decreases es.len(),
{
    if es.len() > 0 {
        lemma_lookup_absent(es.drop_first(), key);
    }
}

proof fn lemma_lookup_some<T>(es: Seq<(String, T)>, key: Seq<char>)
    requires
        reg_lookup(es, key) is Some,
    ensures
        exists|j: int| 0 <= j < es.len() && es[j].0@ == key && reg_lookup(es, key) == Some(es[j].1),
    decreases es.len(),
{
    if es[0].0@ != key {
        lemma_lookup_some(es.drop_first(), key);
        let j = choose|j: int| 0 <= j < es.drop_first().len() && es.drop_first()[j].0@ == key
            && reg_lookup(es.drop_first(), key) == Some(es.drop_first()[j].1);
        assert(es[j + 1] == es.drop_first()[j]);
    } else {
        assert(es[0].0@ == key);
    }
}

/// Every lookup in a keys-unique list is determined by where the key sits.
proof fn lemma_lookup_iff<T>(es: Seq<(String, T)>, key: Seq<char>)
    requires
        keys_unique(es),
    ensures
        reg_lookup(es, key) is Some <==> exists|j: int| 0 <= j < es.len() && es[j].0@ == key,
{
    if exists|j: int| 0 <= j < es.len() && es[j].0@ == key {
        let j = choose|j: int| 0 <= j < es.len() && es[j].0@ == key;
        lemma_lookup_at(es, j);
    } else {
        lemma_lookup_absent(es, key);
    }
}

impl<T> Registry<T> {
    /// The entries, in registration order.
    pub closed spec fn entries(self) -> Seq<(String, T)> {
        self.entries@
    }

    /// The item registered under `key`.
    pub open spec fn lookup(self, key: Seq<char>) -> Option<T> {
        reg_lookup(self.entries(), key)
    }

    /// Keys are unique.
    #[verifier::type_invariant]
    closed spec fn wf(self) -> bool {
        keys_unique(self.entries@)
    }

    /// Number of registered items.
    pub open spec fn count(self) -> nat {
        self.entries().len()
    }

    /// An empty registry.
    pub fn new() -> (r: Registry<T>)
        ensures
            r.count() == 0,
            forall|k: Seq<char>| #[trigger] r.lookup(k) is None,
    {
        Registry { entries: Vec::new() }
    }

    fn find(&self, key: &str) -> (r: Option<usize>)
        ensures
            r matches Some(i) ==> i < self.entries@.len() && self.entries@[i as int].0@ == key@,
            r is None ==> forall|j: int| 0 <= j < self.entries@.len() ==> self.entries@[j].0@ != key@,
    {
        let n = self.entries.len();
        let mut i: usize = 0;
        while i < n
            invariant
                n == self.entries@.len(),
                i <= n,
                forall|j: int| 0 <= j < i ==> self.entries@[j].0@ != key@,
            decreases n - i,
        {
            if text_eq(self.entries[i].0.as_str(), key) {
                return Some(i);
            }
            i = i + 1;
        }
        None
    }

    /// Registers `item` under `key`, replacing any item already there.
    pub fn insert(&mut self, key: String, item: T)
        ensures
            final(self).lookup(key@) == Some(item),
            forall|k: Seq<char>| k != key@ ==> #[trigger] final(self).lookup(k) == old(self).lookup(k),
            final(self).count() == (if old(self).lookup(key@) is Some { old(self).count() } else { old(self).count() + 1 }),
    {
        proof { use_type_invariant(&*self); }
        let ghost old_es = self.entries@;
        let ghost kv = key@;
        match self.find(key.as_str()) {
            Some(i) => {
                proof { lemma_lookup_at(old_es, i as int); }
                let mut es: Vec<(String, T)> = Vec::new();
                std::mem::swap(&mut es, &mut self.entries);
                es.set(i, (key, item));
                proof { assert(keys_unique(es@)); }
                self.entries = es;
                proof {
                    let es = self.entries@;
                    assert(keys_unique(es));
                    lemma_lookup_at(es, i as int);
                    assert forall|k: Seq<char>| k != kv implies #[trigger] reg_lookup(es, k) == reg_lookup(old_es, k) by {
                        lemma_lookup_iff(es, k);
                        lemma_lookup_iff(old_es, k);
                        if reg_lookup(old_es, k) is Some {
                            let j = choose|j: int| 0 <= j < old_es.len() && old_es[j].0@ == k;
                            lemma_lookup_at(old_es, j);
                            lemma_lookup_at(es, j);
                        }
                    }
                }
            },
            None => {
                proof { lemma_lookup_absent(old_es, kv); }
                let mut es: Vec<(String, T)> = Vec::new();
                std::mem::swap(&mut es, &mut self.entries);
                es.push((key, item));
                proof { assert(keys_unique(es@)); }
                self.entries = es;
                proof {
                    let es = self.entries@;
                    assert(keys_unique(es));
                    lemma_lookup_at(es, es.len() - 1);
                    assert forall|k: Seq<char>| k != kv implies #[trigger] reg_lookup(es, k) == reg_lookup(old_es, k) by {
                        lemma_lookup_iff(es, k);
                        lemma_lookup_iff(old_es, k);
                        if reg_lookup(old_es, k) is Some {
                            let j = choose|j: int| 0 <= j < old_es.len() && old_es[j].0@ == k;
                            lemma_lookup_at(old_es, j);
                            lemma_lookup_at(es, j);
                        }
                    }
                }
            },
        }
    }

    /// Removes the item under `key`; returns whether there was one.
    pub fn remove(&mut self, key: &str) -> (r: bool)
        ensures
            r == old(self).lookup(key@) is Some,
            final(self).lookup(key@) is None,
            forall|k: Seq<char>| k != key@ ==> #[trigger] final(self).lookup(k) == old(self).lookup(k),
            final(self).count() == (if r { old(self).count() - 1 } else { old(self).count() as int }),
    {
        proof { use_type_invariant(&*self); }
        let ghost old_es = self.entries@;
        match self.find(key) {
            Some(i) => {
                proof { lemma_lookup_at(old_es, i as int); }
                let mut es: Vec<(String, T)> = Vec::new();
                std::mem::swap(&mut es, &mut self.entries);
                let _ = es.remove(i);
                proof {
                    assert(es@ =~= old_es.remove(i as int));
                    assert(keys_unique(es@));
                }
                self.entries = es;
                proof {
                    let es = self.entries@;
                    assert(es =~= old_es.remove(i as int));
                    assert(keys_unique(es));
                    assert forall|j: int| 0 <= j < es.len() implies es[j].0@ != key@ by {
                        if j < i { } else { assert(es[j] == old_es[j + 1]); }
                    }
                    lemma_lookup_absent(es, key@);
                    assert forall|k: Seq<char>| k != key@ implies #[trigger] reg_lookup(es, k) == reg_lookup(old_es, k) by {
                        lemma_lookup_iff(es, k);
                        lemma_lookup_iff(old_es, k);
                        if reg_lookup(old_es, k) is Some {
                            let j = choose|j: int| 0 <= j < old_es.len() && old_es[j].0@ == k;
                            lemma_lookup_at(old_es, j);
                            if j < i { lemma_lookup_at(es, j); } else { assert(es[j - 1] == old_es[j]); lemma_lookup_at(es, j - 1); }
                        }
                    }
                }
                true
            },
            None => {
                proof { lemma_lookup_absent(old_es, key@); }
                false
            },
        }
    }

    /// Removes the item under `key` and returns it.
    pub fn take(&mut self, key: &str) -> (r: Option<T>)
        ensures
            r == old(self).lookup(key@),
            final(self).lookup(key@) is None,
            forall|k: Seq<char>| k != key@ ==> #[trigger] final(self).lookup(k) == old(self).lookup(k),
            final(self).count() == (if r is Some { old(self).count() - 1 } else { old(self).count() as int }),
    {
        proof { use_type_invariant(&*self); }
        let ghost old_es = self.entries@;
        match self.find(key) {
            Some(i) => {
                proof { lemma_lookup_at(old_es, i as int); }
                let mut es: Vec<(String, T)> = Vec::new();
                std::mem::swap(&mut es, &mut self.entries);
                let (_, item) = es.remove(i);
                proof {
                    assert(es@ =~= old_es.remove(i as int));
                    assert(keys_unique(es@));
                }
                self.entries = es;
                proof {
                    let es = self.entries@;
                    assert(es =~= old_es.remove(i as int));
                    assert forall|j: int| 0 <= j < es.len() implies es[j].0@ != key@ by {
                        if j < i { } else { assert(es[j] == old_es[j + 1]); }
                    }
                    lemma_lookup_absent(es, key@);
                    assert forall|k: Seq<char>| k != key@ implies #[trigger] reg_lookup(es, k) == reg_lookup(old_es, k) by {
                        lemma_lookup_iff(es, k);
                        lemma_lookup_iff(old_es, k);
                        if reg_lookup(old_es, k) is Some {
                            let j = choose|j: int| 0 <= j < old_es.len() && old_es[j].0@ == k;
                            lemma_lookup_at(old_es, j);
                            if j < i { lemma_lookup_at(es, j); } else { assert(es[j - 1] == old_es[j]); lemma_lookup_at(es, j - 1); }
                        }
                    }
                }
                Some(item)
            },
            None => {
                proof { lemma_lookup_absent(old_es, key@); }
                None
            },
        }
    }

    /// The keys, in registration order.
    pub fn keys(&self) -> (r: Vec<String>)
        ensures
            r@.len() == self.count(),
            forall|i: int| 0 <= i < r@.len() ==> (#[trigger] r@[i]) == self.entries()[i].0,
            forall|i: int| 0 <= i < r@.len() ==> self.lookup((#[trigger] r@[i])@) is Some,
            forall|k: Seq<char>| #[trigger] self.lookup(k) is Some ==> exists|i: int| 0 <= i < r@.len() && (#[trigger] r@[i])@ == k,
            forall|i: int, j: int| 0 <= i < j < r@.len() ==> (#[trigger] r@[i])@ != (#[trigger] r@[j])@,
    {
        proof { use_type_invariant(self); }
        let mut out: Vec<String> = Vec::new();
        let n = self.entries.len();
        let mut i: usize = 0;
        while i < n
            invariant
                n == self.entries@.len(),
                keys_unique(self.entries@),
                i <= n,
                out@.len() == i,
                forall|j: int| 0 <= j < i ==> (#[trigger] out@[j]) == self.entries@[j].0,
            decreases n - i,
        {
            out.push(self.entries[i].0.clone());
            i = i + 1;
        }
        proof {
            assert forall|j: int| 0 <= j < out@.len() implies self.lookup((#[trigger] out@[j])@) is Some by {
                lemma_lookup_at(self.entries@, j);
            }
            assert forall|k: Seq<char>| #[trigger] self.lookup(k) is Some implies exists|j: int| 0 <= j < out@.len() && (#[trigger] out@[j])@ == k by {
                lemma_lookup_some(self.entries@, k);
                let j = choose|j: int| 0 <= j < self.entries@.len() && self.entries@[j].0@ == k && reg_lookup(self.entries@, k) == Some(self.entries@[j].1);
                assert(out@[j]@ == k);
            }
        }
        out
    }

    /// The key of the `i`-th entry.
    pub fn key_at(&self, i: usize) -> (r: &String)
        requires
            i < self.count(),
        ensures
            *r == self.entries()[i as int].0,
            self.lookup(r@) == Some(self.entries()[i as int].1),
    {
        proof {
            use_type_invariant(self);
            lemma_lookup_at(self.entries@, i as int);
        }
        &self.entries[i].0
    }

    /// Whether an item is registered under `key`.
    pub fn contains(&self, key: &str) -> (r: bool)
        ensures
            r == self.lookup(key@) is Some,
    {
        proof { use_type_invariant(self); }
        let r = self.find(key);
        proof {
            lemma_lookup_iff(self.entries@, key@);
        }
        r.is_some()
    }

    /// The item registered under `key`.
    pub fn get(&self, key: &str) -> (r: Option<&T>)
        ensures
            r matches Some(x) ==> self.lookup(key@) == Some(*x),
            r is None ==> self.lookup(key@) is None,
    {
        proof { use_type_invariant(self); }
        match self.find(key) {
            Some(i) => {
                proof { lemma_lookup_at(self.entries@, i as int); }
                Some(&self.entries[i].1)
            },
            None => {
                proof { lemma_lookup_absent(self.entries@, key@); }
                None
            },
        }
    }

    /// Number of registered items.
    pub fn len(&self) -> (r: usize)
        ensures
            r == self.count(),
    {
        self.entries.len()
    }

    /// Whether nothing is registered.
    pub fn is_empty(&self) -> (r: bool)
        ensures
            r == (self.count() == 0),
    {
        self.entries.len() == 0
    }

    /// The registered items, in registration order.
    pub fn values(&self) -> (r: Vec<&T>)
        ensures
            r@.len() == self.count(),
            forall|i: int| 0 <= i < r@.len() ==> *r@[i] == self.entries()[i].1,
    {
        let mut out: Vec<&T> = Vec::new();
        let n = self.entries.len();
        let mut i: usize = 0;
        while i < n
            invariant
                n == self.entries@.len(),
                i <= n,
                out@.len() == i,
                forall|j: int| 0 <= j < i ==> *out@[j] == self.entries@[j].1,
            decreases n - i,
        {
            out.push(&self.entries[i].1);
            i = i + 1;
        }
        out
    }
}

} // verus!
