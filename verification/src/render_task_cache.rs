//! The cache of render tasks that were built for a key.
//!
//! A look-up either hits, and hands back the task that was built for the
//! key, or misses. After a miss the caller builds the task and commits it
//! under the key, so whatever is built for a key is built once for as long
//! as the entry stays.

use vstd::prelude::*;
use crate::image::ImageCacheKey;
use crate::render_graph::{RenderTaskGraphBuilder, RenderTaskId};
use crate::units::DeviceIntSize;

verus! {

/// What a cached render task draws.
#[derive(Clone, Copy, Debug, PartialEq, Eq, Hash, Structural)]
pub enum RenderTaskCacheKeyKind {
    Image(ImageCacheKey),
}

/// The key of a cached render task: the size of its target and what it
/// draws.
#[derive(Clone, Copy, Debug, PartialEq, Eq, Hash, Structural)]
pub struct RenderTaskCacheKey {
    pub size: DeviceIntSize,
    pub kind: RenderTaskCacheKeyKind,
}

/// Who reads a cached render task.
#[derive(Clone, Copy, Debug, PartialEq, Eq, Hash, Structural)]
pub enum RenderTaskParent {
    /// The surface that is being built.
    Surface,
    /// Another render task.
    RenderTask(RenderTaskId),
}

/// A key with the task that was built for it.
#[derive(Clone, Copy, Debug, PartialEq, Eq, Hash, Structural)]
pub struct RenderTaskCacheEntry {
    pub key: RenderTaskCacheKey,
    pub task: RenderTaskId,
    pub is_opaque: bool,
}

/// What a look-up found.
#[derive(Clone, Copy, Debug, PartialEq, Eq, Hash, Structural)]
pub enum CacheLookup {
    /// The task that was built for the key.
    Hit(RenderTaskId),
    /// Nothing was built for the key yet.
    Miss,
}

/// The cache.
pub struct RenderTaskCache {
    pub entries: Vec<RenderTaskCacheEntry>,
}

/// The task of the first entry for `key` from index `from` on.
pub open spec fn find_entry(
    entries: Seq<RenderTaskCacheEntry>,
    key: RenderTaskCacheKey,
    from: int,
) -> Option<RenderTaskId>
    decreases entries.len() - from,
{
    if from < 0 || from >= entries.len() {
        None
    } else if entries[from].key == key {
        Some(entries[from].task)
    } else {
        find_entry(entries, key, from + 1)
    }
}

/// The task that `entries` hold for `key`.
pub open spec fn cached_task(entries: Seq<RenderTaskCacheEntry>, key: RenderTaskCacheKey) -> Option<
    RenderTaskId,
> {
    find_entry(entries, key, 0)
}

/// What is found after an entry was added: what was found before, or else
/// the new entry where it has the key.
pub proof fn lemma_find_after_push(
    entries: Seq<RenderTaskCacheEntry>,
    entry: RenderTaskCacheEntry,
    key: RenderTaskCacheKey,
    from: int,
)
    requires
        0 <= from <= entries.len(),
    ensures
        find_entry(entries.push(entry), key, from) == (match find_entry(entries, key, from) {
            Some(task) => Some(task),
            None => if entry.key == key {
                Some(entry.task)
            } else {
                None
            },
        }),
    decreases entries.len() - from,
{
    let pushed = entries.push(entry);
    if from < entries.len() {
        assert(pushed[from] == entries[from]);
        if entries[from].key != key {
            lemma_find_after_push(entries, entry, key, from + 1);
        }
    } else {
        assert(pushed[from] == entry);
        assert(find_entry(pushed, key, from + 1) is None);
    }
}

/// A task that is found is the task of one of the entries.
pub proof fn lemma_found_is_entry(
    entries: Seq<RenderTaskCacheEntry>,
    key: RenderTaskCacheKey,
    from: int,
) -> (i: int)
    requires
        0 <= from,
        find_entry(entries, key, from) is Some,
    ensures
        from <= i < entries.len(),
        entries[i].key == key,
        find_entry(entries, key, from) == Some(entries[i].task),
    decreases entries.len() - from,
{
    if entries[from].key == key {
        from
    } else {
        lemma_found_is_entry(entries, key, from + 1)
    }
}

/// The entries without those for `key`.
pub open spec fn without_key(entries: Seq<RenderTaskCacheEntry>, key: RenderTaskCacheKey) -> Seq<
    RenderTaskCacheEntry,
>
    decreases entries.len(),
{
    if entries.len() == 0 {
        Seq::empty()
    } else if entries.last().key == key {
        without_key(entries.drop_last(), key)
    } else {
        without_key(entries.drop_last(), key).push(entries.last())
    }
}

/// After the entries for a key were taken out, nothing is found for that
/// key, and what is found for any other key is what was found before.
pub proof fn lemma_find_without_key(
    entries: Seq<RenderTaskCacheEntry>,
    key: RenderTaskCacheKey,
    other: RenderTaskCacheKey,
)
    ensures
        cached_task(without_key(entries, key), other) == (if other == key {
            None
        } else {
            cached_task(entries, other)
        }),
    decreases entries.len(),
{
    if entries.len() > 0 {
        let before = entries.drop_last();
        let last = entries.last();
        lemma_find_without_key(before, key, other);
        assert(entries =~= before.push(last));
        lemma_find_after_push(before, last, other, 0);
        if last.key != key {
            lemma_find_after_push(without_key(before, key), last, other, 0);
        }
    }
}

impl RenderTaskCache {
    /// The task that the cache holds for `key`.
    pub open spec fn spec_get(&self, key: RenderTaskCacheKey) -> Option<RenderTaskId> {
        cached_task(self.entries@, key)
    }

    /// Every cached task is a task of the graph `rg_builder`.
    pub open spec fn well_formed(&self, rg_builder: &RenderTaskGraphBuilder) -> bool {
        forall|i: int|
            0 <= i < self.entries@.len() ==> rg_builder.has_task((#[trigger] self.entries@[i]).task)
    }

    pub fn new() -> (c: Self)
        ensures
            c.entries@.len() == 0,
    {
        RenderTaskCache { entries: Vec::new() }
    }

    /// Tests whether every cached task is a task of the graph `rg_builder`.
    pub fn is_well_formed(&self, rg_builder: &RenderTaskGraphBuilder) -> (ok: bool)
        ensures
            ok == self.well_formed(rg_builder),
    {
        let mut i: usize = 0;
        while i < self.entries.len()
            invariant
                i <= self.entries@.len(),
                forall|j: int|
                    0 <= j < i ==> rg_builder.has_task((#[trigger] self.entries@[j]).task),
            decreases self.entries@.len() - i,
        {
            if self.entries[i].task.index >= rg_builder.tasks.len() {
                return false;
            }
            i = i + 1;
        }
        true
    }

    /// Looks `key` up.
    pub fn lookup(&self, key: &RenderTaskCacheKey) -> (r: CacheLookup)
        ensures
            r == (match self.spec_get(*key) {
                Some(task) => CacheLookup::Hit(task),
                None => CacheLookup::Miss,
            }),
    {
        let mut i: usize = 0;
        while i < self.entries.len()
            invariant
                i <= self.entries@.len(),
                find_entry(self.entries@, *key, 0) == find_entry(self.entries@, *key, i as int),
            decreases self.entries@.len() - i,
        {
            if self.entries[i].key == *key {
                return CacheLookup::Hit(self.entries[i].task);
            }
            i = i + 1;
        }
        CacheLookup::Miss
    }

    /// Keeps `task` as what was built for `key`, after a look-up missed.
    pub fn commit(&mut self, key: RenderTaskCacheKey, task: RenderTaskId, is_opaque: bool)
        requires
            old(self).spec_get(key) is None,
        ensures
            final(self).entries@ == old(self).entries@.push(
                RenderTaskCacheEntry { key, task, is_opaque },
            ),
            final(self).spec_get(key) == Some(task),
            forall|other: RenderTaskCacheKey|
                other != key ==> final(self).spec_get(other) == old(self).spec_get(other),
    {
        proof {
            let entry = RenderTaskCacheEntry { key, task, is_opaque };
            lemma_find_after_push(self.entries@, entry, key, 0);
            assert forall|other: RenderTaskCacheKey| other != key implies cached_task(
                self.entries@.push(entry),
                other,
            ) == cached_task(self.entries@, other) by {
                lemma_find_after_push(self.entries@, entry, other, 0);
            }
        }
        self.entries.push(RenderTaskCacheEntry { key, task, is_opaque });
    }

    /// Forgets what was built for `key`, so that the next look-up for it
    /// misses and it is built again.
    pub fn evict(&mut self, key: &RenderTaskCacheKey)
        ensures
            final(self).entries@ == without_key(old(self).entries@, *key),
            final(self).spec_get(*key) is None,
            forall|other: RenderTaskCacheKey|
                other != *key ==> final(self).spec_get(other) == old(self).spec_get(other),
    {
        let mut kept: Vec<RenderTaskCacheEntry> = Vec::new();
        let mut i: usize = 0;
        while i < self.entries.len()
            invariant
                i <= self.entries@.len(),
                kept@ == without_key(self.entries@.subrange(0, i as int), *key),
            decreases self.entries@.len() - i,
        {
            let entry = self.entries[i];
            proof {
                let next = self.entries@.subrange(0, i as int + 1);
                assert(next.drop_last() =~= self.entries@.subrange(0, i as int));
                assert(next.last() == entry);
            }
            if entry.key != *key {
                kept.push(entry);
            }
            i = i + 1;
        }
        proof {
            assert(self.entries@.subrange(0, i as int) =~= self.entries@);
            lemma_find_without_key(self.entries@, *key, *key);
            assert forall|other: RenderTaskCacheKey| other != *key implies cached_task(
                without_key(self.entries@, *key),
                other,
            ) == cached_task(self.entries@, other) by {
                lemma_find_without_key(self.entries@, *key, other);
            }
        }
        self.entries = kept;
    }

    /// Forgets everything that was built: the tasks of a frame end with it.
    pub fn clear(&mut self)
        ensures
            final(self).entries@.len() == 0,
    {
        self.entries.clear();
    }
}

} // verus!
