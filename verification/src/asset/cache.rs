//! Shared asset handles.

use vstd::prelude::*;
use std::sync::Arc;
use crate::util::strings::bytes_eq;

verus! {

/// Clones a shared pointer.
///
/// Trusted: `Arc::clone` returns a pointer to the same value.
#[verifier::external_body]
fn arc_clone<T>(a: &Arc<T>) -> (r: Arc<T>)
    ensures
        *r == **a,
{
    Arc::clone(a)
}

/// A handle for a shared, immutable asset.
///
/// Cloning cheaply duplicates the handle. When no more handles for the asset
/// exist, it is dropped.
pub struct Cached<T>(Arc<T>);

impl<T> Cached<T> {
    /// The asset behind the handle.
    pub closed spec fn asset(&self) -> T {
        *self.0
    }

    /// Returns a handle for a shared asset.
    pub fn handle(asset: Arc<T>) -> (r: Self)
        ensures
            r.asset() == *asset,
    {
        Cached(asset)
    }

    /// Returns the shared pointer behind the handle.
    pub fn shared(&self) -> (r: &Arc<T>)
        ensures
            **r == self.asset(),
    {
        &self.0
    }

    /// Returns a reference to the asset.
    pub fn get(&self) -> (r: &T)
        ensures
            *r == self.asset(),
    {
        &*self.0
    }
}

impl<T> Clone for Cached<T> {
    fn clone(&self) -> (r: Self)
        ensures
            r.asset() == self.asset(),
    {
        Cached(arc_clone(&self.0))
    }
}

impl<T> std::ops::Deref for Cached<T> {
    type Target = T;

    fn deref(&self) -> (r: &T)
        ensures
            *r == self.asset(),
    {
        &*self.0
    }
}

impl<T> AsRef<T> for Cached<T> {
    fn as_ref(&self) -> (r: &T)
        ensures
            *r == self.asset(),
    {
        &*self.0
    }
}

/// The cache of loaded assets: for each path, as bytes, the entry that was
/// stored for it, such as a weak reference to the loaded asset.
///
/// Each path has at most one entry.
pub struct AssetCache<V> {
    entries: Vec<(Vec<u8>, V)>,
}

/// True when no two entries have the same path.
pub open spec fn unique_paths<V>(entries: Seq<(Vec<u8>, V)>) -> bool {
    forall|i: int, j: int|
        0 <= i < entries.len() && 0 <= j < entries.len() && i != j ==> #[trigger] entries[i].0@ != #[trigger] entries[j].0@
}

/// The index of an entry with path `path`.
pub open spec fn index_of<V>(entries: Seq<(Vec<u8>, V)>, path: Seq<u8>) -> int {
    choose|i: int| 0 <= i < entries.len() && #[trigger] entries[i].0@ == path
}

/// The entries as a map from path to entry.
pub open spec fn entries_map<V>(entries: Seq<(Vec<u8>, V)>) -> Map<Seq<u8>, V> {
    Map::new(
        |path: Seq<u8>| exists|i: int| 0 <= i < entries.len() && #[trigger] entries[i].0@ == path,
        |path: Seq<u8>| entries[index_of(entries, path)].1,
    )
}

/// With unique paths, the entry stored for the path at `i` is the one at
/// `i`.
proof fn lemma_entry_at<V>(entries: Seq<(Vec<u8>, V)>, i: int)
    requires
        unique_paths(entries),
        0 <= i < entries.len(),
    ensures
        entries_map(entries).dom().contains(entries[i].0@),
        entries_map(entries)[entries[i].0@] == entries[i].1,
{
    let k = entries[i].0@;
    assert(exists|j: int| 0 <= j < entries.len() && #[trigger] entries[j].0@ == k);
    let j = index_of(entries, k);
    assert(entries[j].0@ == k);
}

impl<V> View for AssetCache<V> {
    type V = Map<Seq<u8>, V>;

    closed spec fn view(&self) -> Map<Seq<u8>, V> {
        entries_map(self.entries@)
    }
}

impl<V> AssetCache<V> {
    /// The cache's invariant: no two entries share a path.
    pub closed spec fn wf(&self) -> bool {
        unique_paths(self.entries@)
    }

    /// Returns an empty cache.
    pub fn new() -> (c: Self)
        ensures
            c.wf(),
            c@ == Map::<Seq<u8>, V>::empty(),
    {
        let c = AssetCache { entries: Vec::new() };
        assert(c@ =~= Map::<Seq<u8>, V>::empty());
        c
    }

    /// Returns the index of the entry for `path`, if there is one.
    fn find(&self, path: &[u8]) -> (r: Option<usize>)
        requires
            self.wf(),
        ensures
            match r {
                Some(i) => i < self.entries@.len() && self.entries@[i as int].0@ == path@,
                None => !self@.dom().contains(path@),
            },
    {
        let mut i: usize = 0;
        while i < self.entries.len()
            invariant
                i <= self.entries@.len(),
                forall|j: int| 0 <= j < i ==> #[trigger] self.entries@[j].0@ != path@,
            decreases self.entries@.len() - i,
        {
            if bytes_eq(self.entries[i].0.as_slice(), path) {
                return Some(i);
            }
            i = i + 1;
        }
        None
    }

    /// Returns the entry for `path`, if there is one.
    pub fn get(&self, path: &[u8]) -> (r: Option<&V>)
        requires
            self.wf(),
        ensures
            match r {
                Some(v) => self@.dom().contains(path@) && *v == self@[path@],
                None => !self@.dom().contains(path@),
            },
    {
        match self.find(path) {
            Some(i) => {
                proof {
                    lemma_entry_at(self.entries@, i as int);
                }
                Some(&self.entries[i].1)
            },
            None => None,
        }
    }

    /// Stores `value` as the entry for `path`, in place of the one there
    /// was, which it returns.
    pub fn insert(&mut self, path: &[u8], value: V) -> (r: Option<V>)
        requires
            old(self).wf(),
        ensures
            final(self).wf(),
            final(self)@ == old(self)@.insert(path@, value),
            match r {
                Some(v) => old(self)@.dom().contains(path@) && v == old(self)@[path@],
                None => !old(self)@.dom().contains(path@),
            },
    {
        let ghost before = self.entries@;
        match self.find(path) {
            Some(i) => {
                proof {
                    lemma_entry_at(before, i as int);
                }
                let (key, old_value) = self.entries.remove(i);
                self.entries.insert(i, (key, value));
                proof {
                    let after = self.entries@;
                    assert(after == before.update(i as int, (before[i as int].0, value)));
                    assert forall|a: int, b: int|
                        0 <= a < after.len() && 0 <= b < after.len() && a != b implies #[trigger] after[a].0@
                        != #[trigger] after[b].0@ by {
                        assert(before[a].0@ != before[b].0@);
                    }
                    assert forall|k: Seq<u8>| #[trigger] entries_map(after).dom().contains(k)
                        == old(self)@.insert(path@, value).dom().contains(k) by {
                        if exists|j: int| 0 <= j < after.len() && #[trigger] after[j].0@ == k {
                            let j = choose|j: int| 0 <= j < after.len() && #[trigger] after[j].0@ == k;
                            assert(before[j].0@ == k);
                        }
                        if exists|j: int| 0 <= j < before.len() && #[trigger] before[j].0@ == k {
                            let j = choose|j: int| 0 <= j < before.len() && #[trigger] before[j].0@ == k;
                            assert(after[j].0@ == k);
                        }
                    }
                    assert forall|k: Seq<u8>| #[trigger] entries_map(after).dom().contains(k) implies entries_map(
                        after,
                    )[k] == old(self)@.insert(path@, value)[k] by {
                        let j = choose|j: int| 0 <= j < after.len() && #[trigger] after[j].0@ == k;
                        lemma_entry_at(after, j);
                        if j != i {
                            lemma_entry_at(before, j);
                        }
                    }
                    assert(entries_map(after) =~= old(self)@.insert(path@, value));
                }
                Some(old_value)
            },
            None => {
                let key = vstd::slice::slice_to_vec(path);
                self.entries.push((key, value));
                proof {
                    let after = self.entries@;
                    assert(after == before.push((key, value)));
                    assert forall|a: int, b: int|
                        0 <= a < after.len() && 0 <= b < after.len() && a != b implies #[trigger] after[a].0@
                        != #[trigger] after[b].0@ by {
                        if a < before.len() && b < before.len() {
                            assert(before[a].0@ != before[b].0@);
                        } else if a < before.len() {
                            assert(entries_map(before).dom().contains(before[a].0@));
                        } else {
                            assert(entries_map(before).dom().contains(before[b].0@));
                        }
                    }
                    assert forall|k: Seq<u8>| #[trigger] entries_map(after).dom().contains(k)
                        == old(self)@.insert(path@, value).dom().contains(k) by {
                        if exists|j: int| 0 <= j < after.len() && #[trigger] after[j].0@ == k {
                            let j = choose|j: int| 0 <= j < after.len() && #[trigger] after[j].0@ == k;
                            if j < before.len() {
                                assert(before[j].0@ == k);
                            }
                        }
                        if exists|j: int| 0 <= j < before.len() && #[trigger] before[j].0@ == k {
                            let j = choose|j: int| 0 <= j < before.len() && #[trigger] before[j].0@ == k;
                            assert(after[j].0@ == k);
                        }
                        if k == path@ {
                            assert(after[before.len() as int].0@ == k);
                        }
                    }
                    assert forall|k: Seq<u8>| #[trigger] entries_map(after).dom().contains(k) implies entries_map(
                        after,
                    )[k] == old(self)@.insert(path@, value)[k] by {
                        let j = choose|j: int| 0 <= j < after.len() && #[trigger] after[j].0@ == k;
                        lemma_entry_at(after, j);
                        if j < before.len() {
                            lemma_entry_at(before, j);
                        }
                    }
                    assert(entries_map(after) =~= old(self)@.insert(path@, value));
                }
                None
            },
        }
    }

    /// Returns the asset for `path`, loading it only when the cache holds
    /// no live entry for it.
    ///
    /// When there is an entry for `path` and `upgrade` turns it into an asset,
    /// that asset is returned and the cache is left as it is; `load` is not
    /// called. Otherwise `load` is called once: on success, the entry it gives
    /// is stored for `path` and its asset returned; on failure, the cache is
    /// left as it is and the error returned.
    pub fn get_or_load<R, E, G, F>(&mut self, path: &[u8], upgrade: G, load: F) -> (r: Result<R, E>)
        where
            G: Fn(&V) -> Option<R>,
            F: FnOnce() -> Result<(V, R), E>,
        requires
            old(self).wf(),
            forall|v: &V| #[trigger] upgrade.requires((v,)),
            load.requires(()),
        ensures
            final(self).wf(),
            ({
                let cached = old(self)@.dom().contains(path@);
                let live = |x: R| cached && upgrade.ensures((&old(self)@[path@],), Some(x));
                let stale = !cached || upgrade.ensures((&old(self)@[path@],), None::<R>);
                match r {
                    Ok(x) => (live(x) && final(self)@ == old(self)@) || (stale && exists|v: V|
                        #[trigger] load.ensures((), Ok::<(V, R), E>((v, x))) && final(self)@ == old(self)@.insert(
                            path@,
                            v,
                        )),
                    Err(e) => stale && load.ensures((), Err::<(V, R), E>(e)) && final(self)@ == old(self)@,
                }
            }),
    {
        match self.find(path) {
            Some(i) => {
                proof {
                    lemma_entry_at(self.entries@, i as int);
                }
                match upgrade(&self.entries[i].1) {
                    Some(x) => {
                        return Ok(x);
                    },
                    None => {},
                }
            },
            None => {},
        }
        match load() {
            Ok((v, x)) => {
                self.insert(path, v);
                Ok(x)
            },
            Err(e) => Err(e),
        }
    }
}

/// What a lookup gives back after an entry is stored: the stored entry for
/// its path, and for every other path what was there before.
pub proof fn lemma_get_after_insert<V>(m: Map<Seq<u8>, V>, path: Seq<u8>, value: V, other: Seq<u8>)
    ensures
        m.insert(path, value).dom().contains(path),
        m.insert(path, value)[path] == value,
        other != path ==> m.insert(path, value).dom().contains(other) == m.dom().contains(other),
        other != path && m.dom().contains(other) ==> m.insert(path, value)[other] == m[other],
{
}

} // verus!
