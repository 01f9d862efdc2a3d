//! The cache that keeps a copy of each entry in a file of its own.
//!
//! The file system is not touched here: an operation that needs a file says
//! which one and what to do with it, and is finished by a second call that
//! hands over what the file held.
use vstd::prelude::*;
use crate::cache::store::KeyValueStore;
use crate::cache::{lookup, CacheError, CachedObject};
use crate::text::push_char;

verus! {

/// An entry as it is written to its file.
#[derive(Clone)]
pub struct DiskCachedObject {
    pub value: String,
}

/// The path of the file named `name` in the directory `dir`, as
/// `Path::join` forms it on Unix: an absolute `name` stands for itself,
/// otherwise a `/` separates the two unless `dir` is empty or ends in one.
pub open spec fn joined_path(dir: Seq<char>, name: Seq<char>) -> Seq<char> {
    if name.len() > 0 && name[0] == '/' {
        name
    } else if dir.len() == 0 || dir.last() == '/' {
        dir + name
    } else {
        dir.push('/') + name
    }
}

/// A file name that does not begin with `/` names a file in the directory:
/// the path is the directory, then one `/` exactly when the directory is
/// non-empty and does not already end in one, then the name. A name that
/// begins with `/` is a path of its own.
pub proof fn law_relative_name_lies_in_directory(dir: Seq<char>, name: Seq<char>)
    ensures
        (name.len() == 0 || name[0] != '/') ==> {
            let path = joined_path(dir, name);
            let sep: int = if dir.len() > 0 && dir.last() != '/' {
                1
            } else {
                0
            };
            &&& path.len() == dir.len() + sep + name.len()
            &&& path.subrange(0, dir.len() as int) == dir
            &&& path.subrange(dir.len() + sep, path.len() as int) == name
            &&& sep == 1 ==> path[dir.len() as int] == '/'
        },
        (name.len() > 0 && name[0] == '/') ==> joined_path(dir, name) == name,
{
    if name.len() == 0 || name[0] != '/' {
        let path = joined_path(dir, name);
        if dir.len() > 0 && dir.last() != '/' {
            assert(path.subrange(0, dir.len() as int) =~= dir);
            assert(path.subrange(dir.len() + 1int, path.len() as int) =~= name);
        } else {
            assert(path.subrange(0, dir.len() as int) =~= dir);
            assert(path.subrange(dir.len() as int, path.len() as int) =~= name);
        }
    }
}

/// Different file names that do not begin with `/` never share a file in
/// the same directory.
pub proof fn law_relative_names_get_distinct_files(dir: Seq<char>, a: Seq<char>, b: Seq<char>)
    requires
        a.len() == 0 || a[0] != '/',
        b.len() == 0 || b[0] != '/',
        a != b,
    ensures
        joined_path(dir, a) != joined_path(dir, b),
{
    law_relative_name_lies_in_directory(dir, a);
    law_relative_name_lies_in_directory(dir, b);
}

/// Joins a directory and a file name into a path.
pub fn join_path(dir: &str, name: &str) -> (r: String)
    ensures
        r@ == joined_path(dir@, name@),
{
    if !name.is_empty() && name.get_char(0) == '/' {
        return name.to_owned();
    }
    let mut r = dir.to_owned();
    let n = dir.unicode_len();
    if n > 0 && dir.get_char(n - 1) != '/' {
        push_char(&mut r, '/');
    }
    r.append(name);
    r
}

/// The first step of a read: the value, or the file to look in.
pub enum DiskLookup {
    /// The value was in memory.
    Hit(CachedObject),
    /// The value is not in memory; it may be in the file at this path.
    ReadFile(String),
}

/// What was found in the file that a `DiskLookup::ReadFile` named.
pub enum DiskRead {
    /// There is no such file.
    Missing,
    /// The file could not be read or did not hold an entry; the text says why.
    Failed(String),
    /// The file held this entry.
    Loaded(DiskCachedObject),
}

/// The file write that completes a store: `object` goes to `path`.
pub struct DiskWrite {
    pub path: String,
    pub object: DiskCachedObject,
}

/// A cache that holds its entries in memory and in one file per key under a
/// directory. Keys are used as given.
pub struct DiskCache {
    store: KeyValueStore,
    cache_dir: String,
}

impl View for DiskCache {
    type V = Map<Seq<char>, Seq<char>>;

    /// The entries held in memory.
    closed spec fn view(&self) -> Map<Seq<char>, Seq<char>> {
        self.store@
    }
}

/// A disk cache over the directory `cache_dir`, with nothing in memory. The
/// directory itself is created by the caller.
pub fn new_disk_cache(cache_dir: &str) -> (c: DiskCache)
    ensures
        c.wf(),
        c@ == Map::<Seq<char>, Seq<char>>::empty(),
        c.dir() == cache_dir@,
{
    DiskCache { store: KeyValueStore::new(), cache_dir: cache_dir.to_owned() }
}

impl DiskCache {
    /// The cache's internal consistency.
    pub closed spec fn wf(&self) -> bool {
        self.store.wf()
    }

    /// The directory that holds the files.
    pub closed spec fn dir(&self) -> Seq<char> {
        self.cache_dir@
    }

    /// The directory that holds the files.
    pub fn cache_dir(&self) -> (r: &str)
        ensures
            r@ == self.dir(),
    {
        self.cache_dir.as_str()
    }

    /// The path of the file that holds the entry for `key`.
    pub fn get_file_path(&self, key: &str) -> (r: String)
        ensures
            r@ == joined_path(self.dir(), key@),
    {
        join_path(self.cache_dir.as_str(), key)
    }

    /// Looks `key` up in memory; on a miss, names the file to read.
    pub fn get(&self, key: &str) -> (r: DiskLookup)
        requires
            self.wf(),
        ensures
            match r {
                DiskLookup::Hit(o) => lookup(self@, key@) == Some(o.value@),
                DiskLookup::ReadFile(path) => lookup(self@, key@) is None && path@ == joined_path(
                    self.dir(),
                    key@,
                ),
            },
    {
        match self.store.get(key) {
            Some(value) => DiskLookup::Hit(CachedObject { value }),
            None => DiskLookup::ReadFile(self.get_file_path(key)),
        }
    }

    /// Finishes a read that missed memory, with what the file held: a loaded
    /// entry is kept in memory and returned; otherwise the read fails.
    pub fn get_from_disk(&mut self, key: &str, read: DiskRead) -> (r: Result<
        CachedObject,
        CacheError,
    >)
        requires
            old(self).wf(),
        ensures
            final(self).wf(),
            final(self).dir() == old(self).dir(),
            match read {
                DiskRead::Missing => r matches Err(CacheError::ValueNotFound) && final(self)@ == old(
                    self,
                )@,
                DiskRead::Failed(m) => r == Err::<CachedObject, CacheError>(CacheError::Storage(m))
                    && final(self)@ == old(self)@,
                DiskRead::Loaded(o) => r matches Ok(c) && c.value@ == o.value@ && final(self)@ == old(
                    self,
                )@.insert(key@, o.value@),
            },
    {
        match read {
            DiskRead::Missing => Err(CacheError::ValueNotFound),
            DiskRead::Failed(m) => Err(CacheError::Storage(m)),
            DiskRead::Loaded(o) => {
                let value = o.value;
                self.store.insert(key.to_owned(), value.clone());
                Ok(CachedObject { value })
            },
        }
    }

    /// Stores `value` under `key` in memory and names the file write that
    /// makes it last. An empty key is refused with `KeyNotFound`.
    pub fn set(&mut self, key: &str, value: String) -> (r: Result<DiskWrite, CacheError>)
        requires
            old(self).wf(),
        ensures
            final(self).wf(),
            final(self).dir() == old(self).dir(),
            key@.len() == 0 ==> (r matches Err(CacheError::KeyNotFound) && final(self)@ == old(
                self,
            )@),
            key@.len() > 0 ==> (r matches Ok(w) && w.path@ == joined_path(old(self).dir(), key@)
                && w.object.value@ == value@ && final(self)@ == old(self)@.insert(key@, value@)),
    {
        if key.is_empty() {
            return Err(CacheError::KeyNotFound);
        }
        self.store.insert(key.to_owned(), value.clone());
        let path = self.get_file_path(key);
        Ok(DiskWrite { path, object: DiskCachedObject { value } })
    }

    /// Removes what memory holds under `key`.
    pub fn remove(&mut self, key: &str)
        requires
            old(self).wf(),
        ensures
            final(self).wf(),
            final(self).dir() == old(self).dir(),
            final(self)@ == old(self)@.remove(key@),
    {
        self.store.remove(key);
    }
}

} // verus!
