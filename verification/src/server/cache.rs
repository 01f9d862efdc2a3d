//! The request handling of the cache service: which cache serves the
//! requests, and what each request is answered.
use vstd::prelude::*;
use crate::cache::disk::{joined_path, new_disk_cache, DiskCache, DiskLookup, DiskRead, DiskWrite};
use crate::cache::simple::{new_simple_cache, SimpleCache};
use crate::cache::{lookup, CacheError, Cacheable};
use crate::key::{free_of_white_space, law_plain_key_is_kept, tokenized};

verus! {

/// The cache behind the service.
pub enum CacheBackend {
    Memory(SimpleCache),
    Disk(DiskCache),
}

/// The request that an error answers.
pub enum CacheOperation {
    Store,
    Fetch,
    Delete,
}

/// How the status text of a failed request begins.
pub open spec fn operation_prefix(op: CacheOperation) -> Seq<char> {
    match op {
        CacheOperation::Store => "Cache set error: "@,
        CacheOperation::Fetch => "Cache get error: "@,
        CacheOperation::Delete => "Cache remove error: "@,
    }
}

/// The status text that answers a request that failed with `e`.
pub open spec fn status_text(op: CacheOperation, e: CacheError) -> Seq<char> {
    operation_prefix(op) + e.message_spec()
}

/// The status text that answers a request of kind `op` that failed with `e`.
pub fn status_message(op: CacheOperation, e: &CacheError) -> (r: String)
    ensures
        r@ == status_text(op, *e),
{
    let mut r = match op {
        CacheOperation::Store => "Cache set error: ".to_owned(),
        CacheOperation::Fetch => "Cache get error: ".to_owned(),
        CacheOperation::Delete => "Cache remove error: ".to_owned(),
    };
    let m = e.message();
    r.append(m.as_str());
    r
}

/// The key under which a store request given `key` keeps its value: the
/// memory-only cache tokenizes keys, the file-backed one does not.
pub open spec fn stored_key_for(memory_only: bool, key: Seq<char>) -> Seq<char> {
    if memory_only {
        tokenized(key)
    } else {
        key
    }
}

/// A read after a store gives back the stored value: under the key the value
/// was stored under, and, when the key holds no white space, under the key as
/// it was given.
pub proof fn law_read_after_write(
    entries: Map<Seq<char>, Seq<char>>,
    memory_only: bool,
    key: Seq<char>,
    value: Seq<char>,
)
    ensures
        lookup(
            entries.insert(stored_key_for(memory_only, key), value),
            stored_key_for(memory_only, key),
        ) == Some(value),
        free_of_white_space(key) ==> lookup(
            entries.insert(stored_key_for(memory_only, key), value),
            key,
        ) == Some(value),
{
    if free_of_white_space(key) {
        law_plain_key_is_kept(key);
    }
}

/// Of two stores under the same key, the later one wins.
pub proof fn law_last_write_wins(
    entries: Map<Seq<char>, Seq<char>>,
    memory_only: bool,
    key: Seq<char>,
    first: Seq<char>,
    second: Seq<char>,
)
    ensures
        entries.insert(stored_key_for(memory_only, key), first).insert(
            stored_key_for(memory_only, key),
            second,
        ) == entries.insert(stored_key_for(memory_only, key), second),
{
    assert(entries.insert(stored_key_for(memory_only, key), first).insert(
        stored_key_for(memory_only, key),
        second,
    ) =~= entries.insert(stored_key_for(memory_only, key), second));
}

/// A store leaves what is held under every other key as it was.
pub proof fn law_write_leaves_other_keys(
    entries: Map<Seq<char>, Seq<char>>,
    memory_only: bool,
    key: Seq<char>,
    value: Seq<char>,
    other: Seq<char>,
)
    requires
        other != stored_key_for(memory_only, key),
    ensures
        lookup(entries.insert(stored_key_for(memory_only, key), value), other) == lookup(
            entries,
            other,
        ),
{
}

/// After a delete, a read of the deleted key finds nothing in memory.
pub proof fn law_read_after_delete(entries: Map<Seq<char>, Seq<char>>, key: Seq<char>)
    ensures
        lookup(entries.remove(key), key) is None,
{
}

/// A delete leaves what is held under every other key as it was.
pub proof fn law_delete_leaves_other_keys(
    entries: Map<Seq<char>, Seq<char>>,
    key: Seq<char>,
    other: Seq<char>,
)
    requires
        other != key,
    ensures
        lookup(entries.remove(key), other) == lookup(entries, other),
{
}

/// The first step of answering a read.
pub enum ServiceLookup {
    /// The answer: the value, or the status text of the failure.
    Reply(Result<String, String>),
    /// The value may be in the file at this path; finish with `get_from_disk`.
    ReadFile(String),
}

/// The cache service: a memory-only cache, or one backed by files.
pub struct MyCacheService {
    cache: CacheBackend,
    memory_only_cache: bool,
}

impl MyCacheService {
    /// The service's internal consistency.
    pub closed spec fn wf(&self) -> bool {
        match self.cache {
            CacheBackend::Memory(c) => self.memory_only_cache && c.wf(),
            CacheBackend::Disk(d) => !self.memory_only_cache && d.wf(),
        }
    }

    /// Whether the service keeps its entries in memory only.
    pub closed spec fn is_memory_only(&self) -> bool {
        self.memory_only_cache
    }

    /// The entries that the cache holds in memory.
    pub closed spec fn entries(&self) -> Map<Seq<char>, Seq<char>> {
        match self.cache {
            CacheBackend::Memory(c) => c@,
            CacheBackend::Disk(d) => d@,
        }
    }

    /// The directory of the files, for a service backed by files.
    pub closed spec fn cache_dir(&self) -> Seq<char> {
        match self.cache {
            CacheBackend::Memory(_) => Seq::empty(),
            CacheBackend::Disk(d) => d.dir(),
        }
    }

    /// The key under which a store request given `key` keeps its value: the
    /// memory-only cache tokenizes keys, the file-backed one does not.
    pub open spec fn stored_key(&self, key: Seq<char>) -> Seq<char> {
        stored_key_for(self.is_memory_only(), key)
    }

    /// A service with an empty memory-only cache, or with an empty cache
    /// backed by the directory `cache_path` (which the caller creates).
    pub fn new(memory_only_cache: bool, cache_path: &str) -> (s: Self)
        ensures
            s.wf(),
            s.is_memory_only() == memory_only_cache,
            s.entries() == Map::<Seq<char>, Seq<char>>::empty(),
            !memory_only_cache ==> s.cache_dir() == cache_path@,
    {
        if memory_only_cache {
            return MyCacheService {
                cache: CacheBackend::Memory(new_simple_cache()),
                memory_only_cache: memory_only_cache,
            };
        }
        MyCacheService {
            cache: CacheBackend::Disk(new_disk_cache(cache_path)),
            memory_only_cache: memory_only_cache,
        }
    }

    /// Whether the service keeps its entries in memory only.
    pub fn memory_only_cache(&self) -> (r: bool)
        ensures
            r == self.is_memory_only(),
    {
        self.memory_only_cache
    }

    /// Answers a store request. A file-backed service also returns the file
    /// write that completes it; a failed write is answered with
    /// `status_message(CacheOperation::Store, ..)`.
    pub fn set(&mut self, key: &str, value: String) -> (r: Result<Option<DiskWrite>, String>)
        requires
            old(self).wf(),
        ensures
            final(self).wf(),
            final(self).is_memory_only() == old(self).is_memory_only(),
            final(self).cache_dir() == old(self).cache_dir(),
            old(self).is_memory_only() ==> (r matches Ok(None)
                && final(self).entries() == old(self).entries().insert(tokenized(key@), value@)),
            !old(self).is_memory_only() && key@.len() > 0 ==> (r matches Ok(Some(w))
                && w.path@ == joined_path(old(self).cache_dir(), key@) && w.object.value@
                == value@ && final(self).entries() == old(self).entries().insert(key@, value@)),
            !old(self).is_memory_only() && key@.len() == 0 ==> (r matches Err(m)
                && m@ == status_text(CacheOperation::Store, CacheError::KeyNotFound)
                && final(self).entries() == old(self).entries()),
    {
        match &mut self.cache {
            CacheBackend::Memory(c) => match c.set(key, value) {
                Ok(()) => Ok(None),
                Err(e) => Err(status_message(CacheOperation::Store, &e)),
            },
            CacheBackend::Disk(d) => match d.set(key, value) {
                Ok(w) => Ok(Some(w)),
                Err(e) => Err(status_message(CacheOperation::Store, &e)),
            },
        }
    }

    /// Answers a read request, or names the file to read first.
    pub fn get(&self, key: &str) -> (r: ServiceLookup)
        requires
            self.wf(),
        ensures
            lookup(self.entries(), key@) matches Some(v) ==> (r matches ServiceLookup::Reply(Ok(s))
                && s@ == v),
            lookup(self.entries(), key@) is None && self.is_memory_only() ==> (
            r matches ServiceLookup::Reply(Err(m)) && m@ == status_text(
                CacheOperation::Fetch,
                CacheError::ValueNotFound,
            )),
            lookup(self.entries(), key@) is None && !self.is_memory_only() ==> (
            r matches ServiceLookup::ReadFile(p) && p@ == joined_path(self.cache_dir(), key@)),
    {
        match &self.cache {
            CacheBackend::Memory(c) => match c.get(key) {
                Ok(o) => ServiceLookup::Reply(Ok(o.value)),
                Err(e) => ServiceLookup::Reply(Err(status_message(CacheOperation::Fetch, &e))),
            },
            CacheBackend::Disk(d) => match d.get(key) {
                DiskLookup::Hit(o) => ServiceLookup::Reply(Ok(o.value)),
                DiskLookup::ReadFile(p) => ServiceLookup::ReadFile(p),
            },
        }
    }

    /// Finishes a read that `get` sent to a file, with what the file held.
    pub fn get_from_disk(&mut self, key: &str, read: DiskRead) -> (r: Result<String, String>)
        requires
            old(self).wf(),
            !old(self).is_memory_only(),
        ensures
            final(self).wf(),
            final(self).is_memory_only() == old(self).is_memory_only(),
            final(self).cache_dir() == old(self).cache_dir(),
            match read {
                DiskRead::Missing => r matches Err(m) && m@ == status_text(
                    CacheOperation::Fetch,
                    CacheError::ValueNotFound,
                ) && final(self).entries() == old(self).entries(),
                DiskRead::Failed(t) => r matches Err(m) && m@ == operation_prefix(
                    CacheOperation::Fetch,
                ) + t@ && final(self).entries() == old(self).entries(),
                DiskRead::Loaded(o) => r matches Ok(v) && v@ == o.value@ && final(self).entries()
                    == old(self).entries().insert(key@, o.value@),
            },
    {
        match &mut self.cache {
            CacheBackend::Memory(_) => Err(String::new()),
            CacheBackend::Disk(d) => match d.get_from_disk(key, read) {
                Ok(o) => Ok(o.value),
                Err(e) => Err(status_message(CacheOperation::Fetch, &e)),
            },
        }
    }

    /// Answers a delete request: whatever the cache holds in memory under
    /// `key` is removed; the request always succeeds.
    pub fn delete(&mut self, key: &str) -> (r: Result<(), String>)
        requires
            old(self).wf(),
        ensures
            final(self).wf(),
            final(self).is_memory_only() == old(self).is_memory_only(),
            final(self).cache_dir() == old(self).cache_dir(),
            r is Ok,
            final(self).entries() == old(self).entries().remove(key@),
    {
        match &mut self.cache {
            CacheBackend::Memory(c) => match c.remove(key) {
                Ok(()) => Ok(()),
                Err(e) => Err(status_message(CacheOperation::Delete, &e)),
            },
            CacheBackend::Disk(d) => {
                d.remove(key);
                Ok(())
            },
        }
    }
}

} // verus!
