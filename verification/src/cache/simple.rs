//! The memory-only cache.
use vstd::prelude::*;
use crate::cache::store::KeyValueStore;
use crate::cache::{CacheError, Cacheable, CachedObject};
use crate::key::{tokenize_key, tokenized};

verus! {

/// A cache that keeps its entries in memory only. Keys are stored in their
/// tokenized form (see `tokenize_key`) and looked up as given.
pub struct SimpleCache {
    store: KeyValueStore,
}

impl View for SimpleCache {
    type V = Map<Seq<char>, Seq<char>>;

    closed spec fn view(&self) -> Map<Seq<char>, Seq<char>> {
        self.store@
    }
}

/// An empty memory-only cache.
pub fn new_simple_cache() -> (c: SimpleCache)
    ensures
        c.wf(),
        c@ == Map::<Seq<char>, Seq<char>>::empty(),
{
    SimpleCache { store: KeyValueStore::new() }
}

impl Cacheable for SimpleCache {
    open spec fn entries(&self) -> Map<Seq<char>, Seq<char>> {
        self@
    }

    closed spec fn wf(&self) -> bool {
        self.store.wf()
    }

    open spec fn stored_key(key: Seq<char>) -> Seq<char> {
        tokenized(key)
    }

    fn get(&self, key: &str) -> (r: Result<CachedObject, CacheError>) {
        match self.store.get(key) {
            Some(value) => Ok(CachedObject { value }),
            None => Err(CacheError::ValueNotFound),
        }
    }

    /// Stores `value` under the tokenized form of `key`; never fails.
    fn set(&mut self, key: &str, value: String) -> (r: Result<(), CacheError>)
        ensures
            r is Ok,
            final(self)@ == old(self)@.insert(tokenized(key@), value@),
    {
        let tokenized_key = tokenize_key(key);
        self.store.insert(tokenized_key, value);
        Ok(())
    }

    fn remove(&mut self, key: &str) -> (r: Result<(), CacheError>) {
        self.store.remove(key);
        Ok(())
    }

    fn list_keys(&self) -> (r: Result<Vec<String>, CacheError>) {
        Ok(self.store.keys())
    }

    fn purge(&mut self) -> (r: Result<(), CacheError>) {
        self.store.clear();
        Ok(())
    }
}

} // verus!
