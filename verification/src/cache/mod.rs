//! The caches and what they have in common.
use vstd::prelude::*;
use crate::key::{free_of_white_space, law_plain_key_is_kept, tokenized};

pub mod disk;
pub mod simple;
pub mod store;

verus! {

/// A value handed out by a cache.
#[derive(Clone)]
pub struct CachedObject {
    pub value: String,
}

/// Why a cache operation failed.
pub enum CacheError {
    /// Nothing is stored under the key that was asked for.
    ValueNotFound,
    /// The key given to a store operation is not accepted (it is empty).
    KeyNotFound,
    /// Reading or writing the backing storage failed; the text says why.
    Storage(String),
}

impl CacheError {
    /// The text that describes the error.
    pub open spec fn message_spec(&self) -> Seq<char> {
        match self {
            CacheError::ValueNotFound => "Value not found"@,
            CacheError::KeyNotFound => "Key not found"@,
            CacheError::Storage(m) => m@,
        }
    }

    /// The text that describes the error, as it is shown to a client.
    pub fn message(&self) -> (r: String)
        ensures
            r@ == self.message_spec(),
    {
        match self {
            CacheError::ValueNotFound => "Value not found".to_owned(),
            CacheError::KeyNotFound => "Key not found".to_owned(),
            CacheError::Storage(m) => m.clone(),
        }
    }
}

/// What a cache whose entries are `entries` holds under `key`.
pub open spec fn lookup(entries: Map<Seq<char>, Seq<char>>, key: Seq<char>) -> Option<Seq<char>> {
    if entries.contains_key(key) {
        Some(entries[key])
    } else {
        None
    }
}

/// After a purge, no key is found and none is listed.
pub proof fn law_purge_forgets_everything(key: Seq<char>)
    ensures
        lookup(Map::<Seq<char>, Seq<char>>::empty(), key) is None,
        !Map::<Seq<char>, Seq<char>>::empty().contains_key(key),
{
}

/// After a store into the memory-only cache, the listing holds the
/// tokenized key, and the key as given when it holds no white space.
pub proof fn law_listed_after_write(
    entries: Map<Seq<char>, Seq<char>>,
    key: Seq<char>,
    value: Seq<char>,
)
    ensures
        entries.insert(tokenized(key), value).contains_key(tokenized(key)),
        free_of_white_space(key) ==> entries.insert(tokenized(key), value).contains_key(key),
{
    if free_of_white_space(key) {
        law_plain_key_is_kept(key);
    }
}

/// The characters of each string, in order.
pub open spec fn string_views(strings: Seq<String>) -> Seq<Seq<char>> {
    store::key_views(strings)
}

/// A cache of string values under string keys.
pub trait Cacheable: Sized {
    /// What the cache holds: each stored key with its value.
    spec fn entries(&self) -> Map<Seq<char>, Seq<char>>;

    /// The cache's internal consistency.
    spec fn wf(&self) -> bool;

    /// The key under which `set` stores a value given with `key`.
    spec fn stored_key(key: Seq<char>) -> Seq<char>;

    /// The value stored under `key`, or `ValueNotFound`.
    fn get(&self, key: &str) -> (r: Result<CachedObject, CacheError>)
        requires
            self.wf(),
        ensures
            match r {
                Ok(o) => lookup(self.entries(), key@) == Some(o.value@),
                Err(e) => lookup(self.entries(), key@) is None && e is ValueNotFound,
            },
    ;

    /// Stores `value` under the key that `key` names.
    fn set(&mut self, key: &str, value: String) -> (r: Result<(), CacheError>)
        requires
            old(self).wf(),
        ensures
            final(self).wf(),
            r is Ok ==> final(self).entries() == old(self).entries().insert(
                Self::stored_key(key@),
                value@,
            ),
            r is Err ==> final(self).entries() == old(self).entries(),
    ;

    /// Removes what is stored under `key`.
    fn remove(&mut self, key: &str) -> (r: Result<(), CacheError>)
        requires
            old(self).wf(),
        ensures
            final(self).wf(),
            r is Ok,
            final(self).entries() == old(self).entries().remove(key@),
    ;

    /// Every stored key, once each.
    fn list_keys(&self) -> (r: Result<Vec<String>, CacheError>)
        requires
            self.wf(),
        ensures
            match r {
                Ok(keys) => string_views(keys@).no_duplicates() && forall|k: Seq<char>|
                    string_views(keys@).contains(k) <==> self.entries().contains_key(k),
                Err(_) => false,
            },
    ;

    /// Removes everything from the cache.
    fn purge(&mut self) -> (r: Result<(), CacheError>)
        requires
            old(self).wf(),
        ensures
            final(self).wf(),
            r is Ok,
            final(self).entries() == Map::<Seq<char>, Seq<char>>::empty(),
    ;
}

} // verus!
