//! The paths of binaries that earlier resolutions produced, by toolchain
//! version.
//!
//! An entry is only a hint: the file it names may be gone by the time it is
//! read. Reading therefore takes the outcome of an on-disk check, and a path
//! that is no regular file any more reads as no entry at all.

use vstd::prelude::*;
use crate::text::{
    all_whitespace, lemma_trimmed_idempotent, lemma_trimmed_ignores_padding, same_text, trim,
    trimmed,
};

verus! {

/// The key a toolchain version is cached under: the version without the white
/// space around it, and `None` ("unversioned") where no toolchain was found.
pub open spec fn cache_key(version: Option<Seq<char>>) -> Option<Seq<char>> {
    match version {
        Some(v) => Some(trimmed(v)),
        None => None,
    }
}

/// What the cache maps a key to, if anything.
pub open spec fn cached(
    entries: Map<Option<Seq<char>>, Seq<char>>,
    key: Option<Seq<char>>,
) -> Option<Seq<char>> {
    if entries.contains_key(key) {
        Some(entries[key])
    } else {
        None
    }
}

/// The map that a list of entries stands for; a later entry wins over an
/// earlier one with the same key.
pub closed spec fn entries_map(entries: Seq<(Option<String>, String)>) -> Map<
    Option<Seq<char>>,
    Seq<char>,
>
    decreases entries.len(),
{
    if entries.len() == 0 {
        Map::empty()
    } else {
        entries_map(entries.drop_last()).insert(
            entries.last().0.deep_view(),
            entries.last().1@,
        )
    }
}

proof fn lemma_entries_map_absent(entries: Seq<(Option<String>, String)>, key: Option<Seq<char>>)
    requires
        forall|j: int| 0 <= j < entries.len() ==> (#[trigger] entries[j]).0.deep_view() != key,
    ensures
        !entries_map(entries).contains_key(key),
    decreases entries.len(),
{
    if entries.len() > 0 {
        let init = entries.drop_last();
        assert(forall|j: int| 0 <= j < init.len() ==> init[j] == entries[j]);
        lemma_entries_map_absent(init, key);
        assert(entries.last() == entries[entries.len() - 1]);
    }
}

proof fn lemma_entries_map_last_match(
    entries: Seq<(Option<String>, String)>,
    key: Option<Seq<char>>,
    i: int,
)
    requires
        0 <= i < entries.len(),
        entries[i].0.deep_view() == key,
        forall|j: int| i < j < entries.len() ==> (#[trigger] entries[j]).0.deep_view() != key,
    ensures
        entries_map(entries).contains_key(key),
        entries_map(entries)[key] == entries[i].1@,
    decreases entries.len(),
{
    let init = entries.drop_last();
    assert(entries.last() == entries[entries.len() - 1]);
    if i < entries.len() - 1 {
        assert(forall|j: int| 0 <= j < init.len() ==> init[j] == entries[j]);
        lemma_entries_map_last_match(init, key, i);
    }
}

proof fn lemma_entries_map_update(
    entries: Seq<(Option<String>, String)>,
    i: int,
    entry: (Option<String>, String),
)
    requires
        0 <= i < entries.len(),
        entries[i].0.deep_view() == entry.0.deep_view(),
        forall|j: int|
            i < j < entries.len() ==> (#[trigger] entries[j]).0.deep_view()
                != entry.0.deep_view(),
    ensures
        entries_map(entries.update(i, entry)) == entries_map(entries).insert(
            entry.0.deep_view(),
            entry.1@,
        ),
    decreases entries.len(),
{
    let updated = entries.update(i, entry);
    let init = entries.drop_last();
    assert(entries.last() == entries[entries.len() - 1]);
    if i == entries.len() - 1 {
        assert(updated.drop_last() == init);
        assert(updated.last() == entry);
        assert(entries_map(updated) =~= entries_map(entries).insert(
            entry.0.deep_view(),
            entry.1@,
        ));
    } else {
        assert(forall|j: int| 0 <= j < init.len() ==> init[j] == entries[j]);
        lemma_entries_map_update(init, i, entry);
        assert(updated.drop_last() == init.update(i, entry));
        assert(updated.last() == entries.last());
        assert(entries_map(updated) =~= entries_map(entries).insert(
            entry.0.deep_view(),
            entry.1@,
        ));
    }
}

/// Versions that differ only in the white space around them have the same
/// key, and so share one cache entry.
pub proof fn lemma_cache_key_ignores_padding(
    before: Seq<char>,
    version: Seq<char>,
    after: Seq<char>,
)
    requires
        all_whitespace(before),
        all_whitespace(after),
    ensures
        cache_key(Some(before + version + after)) == cache_key(Some(version)),
{
    lemma_trimmed_ignores_padding(before, version, after);
}

/// A key is the key of itself: taking a key twice changes nothing.
pub proof fn lemma_cache_key_idempotent(version: Option<Seq<char>>)
    ensures
        cache_key(cache_key(version)) == cache_key(version),
{
    if let Some(v) = version {
        lemma_trimmed_idempotent(v);
    }
}

/// The key that a toolchain version is cached under.
pub fn key_of(version: &Option<String>) -> (r: Option<String>)
    ensures
        r.deep_view() == cache_key(version.deep_view()),
{
    match version {
        Some(v) => Some(trim(v.as_str())),
        None => None,
    }
}

fn same_key(a: &Option<String>, b: &Option<String>) -> (r: bool)
    ensures
        r == (a.deep_view() == b.deep_view()),
{
    match (a, b) {
        (Some(x), Some(y)) => same_text(x.as_str(), y.as_str()),
        (None, None) => true,
        _ => false,
    }
}

/// A map from toolchain version to the path of the binary resolved for it,
/// kept for as long as the resolver lives.
#[derive(Debug)]
pub struct CacheStore {
    entries: Vec<(Option<String>, String)>,
}

impl View for CacheStore {
    type V = Map<Option<Seq<char>>, Seq<char>>;

    closed spec fn view(&self) -> Map<Option<Seq<char>>, Seq<char>> {
        entries_map(self.entries@)
    }
}

impl CacheStore {
    /// A cache without entries.
    pub fn new() -> (r: CacheStore)
        ensures
            r@ == Map::<Option<Seq<char>>, Seq<char>>::empty(),
    {
        CacheStore { entries: Vec::new() }
    }

    fn position(&self, key: &Option<String>) -> (r: Option<usize>)
        ensures
            match r {
                Some(i) => i < self.entries@.len() && self.entries@[i as int].0.deep_view()
                    == key.deep_view() && forall|j: int|
                    i < j < self.entries@.len() ==> (#[trigger] self.entries@[j]).0.deep_view()
                        != key.deep_view(),
                None => forall|j: int|
                    0 <= j < self.entries@.len() ==> (#[trigger] self.entries@[j]).0.deep_view()
                        != key.deep_view(),
            },
    {
        let mut i: usize = self.entries.len();
        while i > 0
            invariant
                i <= self.entries@.len(),
                forall|j: int|
                    i <= j < self.entries@.len() ==> (#[trigger] self.entries@[j]).0.deep_view()
                        != key.deep_view(),
            decreases i,
        {
            i = i - 1;
            if same_key(&self.entries[i].0, key) {
                return Some(i);
            }
        }
        None
    }

    /// The path recorded for a toolchain version, whether or not the file is
    /// still there.
    pub fn entry(&self, version: &Option<String>) -> (r: Option<String>)
        ensures
            r.deep_view() == cached(self@, cache_key(version.deep_view())),
    {
        let key = key_of(version);
        match self.position(&key) {
            Some(i) => {
                proof {
                    lemma_entries_map_last_match(self.entries@, key.deep_view(), i as int);
                }
                Some(self.entries[i].1.clone())
            },
            None => {
                proof {
                    lemma_entries_map_absent(self.entries@, key.deep_view());
                }
                None
            },
        }
    }

    /// The binary cached for a toolchain version. `on_disk` says whether the
    /// path that [`CacheStore::entry`] gives for this version is a regular
    /// file now; an entry whose file is gone counts as no entry, and is no
    /// error.
    pub fn get(&self, version: &Option<String>, on_disk: bool) -> (r: Option<String>)
        ensures
            r.deep_view() == if on_disk {
                cached(self@, cache_key(version.deep_view()))
            } else {
                None
            },
    {
        if on_disk {
            self.entry(version)
        } else {
            None
        }
    }

    /// Records `path` as the binary for a toolchain version, in place of what
    /// was recorded for it before.
    pub fn put(&mut self, version: &Option<String>, path: String)
        ensures
            final(self)@ == old(self)@.insert(cache_key(version.deep_view()), path@),
    {
        let key = key_of(version);
        match self.position(&key) {
            Some(i) => {
                proof {
                    lemma_entries_map_update(self.entries@, i as int, (key, path));
                }
                self.entries.set(i, (key, path));
            },
            None => {
                proof {
                    assert(self.entries@.push((key, path)).drop_last() == self.entries@);
                }
                self.entries.push((key, path));
            },
        }
    }
}

} // verus!
