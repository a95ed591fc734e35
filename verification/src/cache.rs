//! The class handle cache.
//!
//! Resolving a host class and promoting the resulting transient handle to
//! a long-lived one is expensive, so it is done at most once per distinct
//! class name for the life of the process.  This module holds the cache's
//! verified bookkeeping: a mapping from class names to promoted handles.
//! The host-runtime lookup itself, and the lock that serializes concurrent
//! callers, live with the unverified glue, which consults [`ClassCache::lookup`]
//! and records a freshly promoted handle with [`ClassCache::insert`].
//!
//! A long-lived handle is carried here as a plain identifier; the glue
//! owns the table from identifiers to actual host references, which are
//! released only at process teardown.

use vstd::prelude::*;

use crate::text::str_eq;

verus! {

/// A process-wide memoized mapping from host class names to long-lived
/// handle identifiers.
///
/// The mapping is its view: each cached class name maps to the handle that
/// was promoted for it.  Entries are never dropped; a name, once cached,
/// stays cached for the life of the process.
pub struct ClassCache {
    entries: Vec<(String, u64)>,
}

impl ClassCache {
    /// The entries up to `n`, as a mapping from class names to handles.
    spec fn prefix_map(self, n: int) -> Map<Seq<char>, u64>
        decreases n,
    {
        if n <= 0 {
            Map::empty()
        } else {
            self.prefix_map(n - 1).insert(self.entries@[n - 1].0@, self.entries@[n - 1].1)
        }
    }

    /// The cache's contents: a mapping from cached class names to their
    /// promoted handles.
    pub closed spec fn view(self) -> Map<Seq<char>, u64> {
        self.prefix_map(self.entries@.len() as int)
    }

    /// No class name occurs twice in the entry list.
    spec fn wf(self) -> bool {
        forall|i: int, j: int|
            0 <= i < j < self.entries@.len() ==> #[trigger] self.entries@[i].0@
                != #[trigger] self.entries@[j].0@
    }

    /// A name is in the prefix map exactly when some entry of the prefix
    /// holds it, and the last such entry gives its handle.
    proof fn lemma_prefix_map(self, n: int)
        requires
            0 <= n <= self.entries@.len(),
        ensures
            forall|k: Seq<char>|
                self.prefix_map(n).contains_key(k) <==> exists|i: int|
                    0 <= i < n && #[trigger] self.entries@[i].0@ == k,
            forall|i: int|
                0 <= i < n && (forall|j: int|
                    i < j < n ==> self.entries@[i].0@ != #[trigger] self.entries@[j].0@)
                    ==> self.prefix_map(n).contains_key(#[trigger] self.entries@[i].0@)
                    && self.prefix_map(n)[self.entries@[i].0@] == self.entries@[i].1,
        decreases n,
    {
        if n > 0 {
            self.lemma_prefix_map(n - 1);
            assert forall|k: Seq<char>| self.prefix_map(n).contains_key(k) implies exists|i: int|
                0 <= i < n && #[trigger] self.entries@[i].0@ == k by {
                if k == self.entries@[n - 1].0@ {
                    assert(self.entries@[n - 1].0@ == k);
                } else {
                    assert(self.prefix_map(n - 1).contains_key(k));
                }
            }
            assert forall|k: Seq<char>|
                (exists|i: int| 0 <= i < n && #[trigger] self.entries@[i].0@ == k) implies self
                .prefix_map(n).contains_key(k) by {
                let i = choose|i: int| 0 <= i < n && #[trigger] self.entries@[i].0@ == k;
                if i == n - 1 {
                    assert(self.prefix_map(n).contains_key(k));
                } else {
                    assert(self.prefix_map(n - 1).contains_key(k));
                }
            }
        }
    }

    /// Two caches whose first `n` entries agree have the same prefix map
    /// over them.
    proof fn lemma_prefix_map_congruence(self, other: ClassCache, n: int)
        requires
            0 <= n <= self.entries@.len(),
            n <= other.entries@.len(),
            forall|i: int| 0 <= i < n ==> self.entries@[i] == #[trigger] other.entries@[i],
        ensures
            self.prefix_map(n) == other.prefix_map(n),
        decreases n,
    {
        if n > 0 {
            self.lemma_prefix_map_congruence(other, n - 1);
        }
    }

    /// A fresh, empty cache.
    pub fn new() -> (r: ClassCache)
        ensures
            r@ == Map::<Seq<char>, u64>::empty(),
            r.inv(),
    {
        ClassCache { entries: Vec::new() }
    }

    /// The cache's invariant.  Constructors establish it and methods
    /// preserve it.
    pub closed spec fn inv(self) -> bool {
        self.wf()
    }

    /// Looks a class name up in the cache, without any host-runtime work.
    pub fn lookup(&self, class_name: &str) -> (r: Option<u64>)
        requires
            self.inv(),
        ensures
            match r {
                Some(h) => self@.contains_key(class_name@) && self@[class_name@] == h,
                None => !self@.contains_key(class_name@),
            },
    {
        let n = self.entries.len();
        let mut i: usize = 0;
        while i < n
            invariant
                self.inv(),
                n == self.entries@.len(),
                0 <= i <= n,
                forall|j: int| 0 <= j < i ==> self.entries@[j].0@ != class_name@,
            decreases n - i,
        {
            let entry = &self.entries[i];
            if str_eq(entry.0.as_str(), class_name) {
                proof {
                    self.lemma_prefix_map(self.entries@.len() as int);
                }
                return Some(entry.1);
            }
            i = i + 1;
        }
        proof {
            self.lemma_prefix_map(self.entries@.len() as int);
        }
        None
    }

    /// Records the handle promoted for a class name.
    ///
    /// The glue calls this exactly when a lookup missed and the host
    /// runtime has resolved the class: from then on the name is cached.
    pub fn insert(&mut self, class_name: String, handle: u64)
        requires
            old(self).inv(),
            !old(self)@.contains_key(class_name@),
        ensures
            final(self).inv(),
            final(self)@ == old(self)@.insert(class_name@, handle),
    {
        proof {
            self.lemma_prefix_map(self.entries@.len() as int);
        }
        let ghost before = *self;
        self.entries.push((class_name, handle));
        proof {
            before.lemma_prefix_map_congruence(*self, before.entries@.len() as int);
        }
    }

    /// Records a batch of promoted handles up front, in order.  A name
    /// that is already cached keeps its first handle, as does the first of
    /// two equal names within the batch.
    pub fn preload_classes(&mut self, entries: &Vec<(String, u64)>)
        requires
            old(self).inv(),
        ensures
            final(self).inv(),
            final(self)@ == preload_map(old(self)@, entries@),
    {
        let n = entries.len();
        let mut i: usize = 0;
        while i < n
            invariant
                self.inv(),
                n == entries@.len(),
                0 <= i <= n,
                self@ == preload_map(old(self)@, entries@.take(i as int)),
            decreases n - i,
        {
            let entry = &entries[i];
            if self.lookup(entry.0.as_str()).is_none() {
                self.insert(entry.0.clone(), entry.1);
            }
            proof {
                let t = entries@.take(i + 1);
                assert(t.drop_last() =~= entries@.take(i as int));
                assert(t.last() == entries@[i as int]);
            }
            i = i + 1;
        }
        proof {
            assert(entries@.take(n as int) =~= entries@);
        }
    }

    /// How many distinct class names are cached.
    pub fn len(&self) -> (r: usize)
        requires
            self.inv(),
        ensures
            r == self@.dom().len(),
    {
        proof {
            self.lemma_dom_len(self.entries@.len() as int);
        }
        self.entries.len()
    }

    /// The prefix map's domain has exactly one element per entry.
    proof fn lemma_dom_len(self, n: int)
        requires
            self.wf(),
            0 <= n <= self.entries@.len(),
        ensures
            self.prefix_map(n).dom().finite(),
            self.prefix_map(n).dom().len() == n,
        decreases n,
    {
        if n > 0 {
            self.lemma_dom_len(n - 1);
            self.lemma_prefix_map(n - 1);
            assert(!self.prefix_map(n - 1).contains_key(self.entries@[n - 1].0@));
        }
    }
}

/// The cache contents after recording a batch of promoted handles on top
/// of `m`: each name in turn is added unless it is already present.
pub open spec fn preload_map(m: Map<Seq<char>, u64>, entries: Seq<(String, u64)>) -> Map<
    Seq<char>,
    u64,
>
    decreases entries.len(),
{
    if entries.len() == 0 {
        m
    } else {
        let rest = preload_map(m, entries.drop_last());
        if rest.contains_key(entries.last().0@) {
            rest
        } else {
            rest.insert(entries.last().0@, entries.last().1)
        }
    }
}

/// Once a class name is cached, every later call for it is answered from
/// the cache: no further host lookup is performed, and each such caller
/// receives a handle equal to the one first promoted.  Together with the
/// lock that serializes callers, this bounds the host-runtime work to at
/// most one load per distinct name for the process lifetime.
pub proof fn lemma_load_at_most_once(m: Map<Seq<char>, u64>, class_name: Seq<char>, handle: u64)
    ensures
        m.insert(class_name, handle).contains_key(class_name),
        m.insert(class_name, handle)[class_name] == handle,
        forall|other: Seq<char>, h2: u64|
            other != class_name ==> m.insert(class_name, handle).insert(other, h2).contains_key(
                class_name,
            ) && m.insert(class_name, handle).insert(other, h2)[class_name] == handle,
{
}

} // verus!
