//! The key-value store behind both caches: a hash map from keys to values,
//! with the list of its keys kept beside it so that they can be listed.
use vstd::prelude::*;
use vstd::hash_map::StringHashMap;

verus! {

/// The characters of each key, in order.
pub open spec fn key_views(keys: Seq<String>) -> Seq<Seq<char>> {
    keys.map_values(|k: String| k@)
}

/// A map from string keys to string values.
pub struct KeyValueStore {
    entries: StringHashMap<String>,
    keys: Vec<String>,
}

impl View for KeyValueStore {
    type V = Map<Seq<char>, Seq<char>>;

    closed spec fn view(&self) -> Map<Seq<char>, Seq<char>> {
        self.entries@.map_values(|v: String| v@)
    }
}

fn position_of(keys: &Vec<String>, key: &String) -> (r: Option<usize>)
    ensures
        match r {
            Some(i) => i < keys@.len() && keys@[i as int]@ == key@,
            None => !key_views(keys@).contains(key@),
        },
{
    let mut i: usize = 0;
    while i < keys.len()
        invariant
            i <= keys@.len(),
            forall|j: int| 0 <= j < i ==> keys@[j]@ != key@,
        decreases keys@.len() - i,
    {
        if keys[i] == *key {
            return Some(i);
        }
        i = i + 1;
    }
    proof {
        if key_views(keys@).contains(key@) {
            let j = choose|j: int| 0 <= j < key_views(keys@).len() && key_views(keys@)[j] == key@;
            assert(keys@[j]@ == key@);
        }
    }
    None
}

impl KeyValueStore {
    /// The store's internal consistency: the key list names each key of the
    /// map exactly once.
    pub closed spec fn wf(&self) -> bool {
        &&& key_views(self.keys@).no_duplicates()
        &&& forall|k: Seq<char>| #[trigger]
            key_views(self.keys@).contains(k) <==> self.entries@.contains_key(k)
    }

    /// An empty store.
    pub fn new() -> (s: Self)
        ensures
            s.wf(),
            s@ == Map::<Seq<char>, Seq<char>>::empty(),
    {
        let s = KeyValueStore { entries: StringHashMap::new(), keys: Vec::new() };
        assert(key_views(s.keys@) =~= Seq::<Seq<char>>::empty());
        assert(s@ =~= Map::<Seq<char>, Seq<char>>::empty());
        s
    }

    /// The value stored under `key`, if any.
    pub fn get(&self, key: &str) -> (r: Option<String>)
        requires
            self.wf(),
        ensures
            match r {
                Some(v) => self@.contains_key(key@) && v@ == self@[key@],
                None => !self@.contains_key(key@),
            },
    {
        match self.entries.get(key) {
            Some(v) => Some(v.clone()),
            None => None,
        }
    }

    /// Whether a value is stored under `key`.
    pub fn contains_key(&self, key: &str) -> (r: bool)
        ensures
            r == self@.contains_key(key@),
    {
        self.entries.contains_key(key)
    }

    /// Stores `value` under `key`, replacing what was stored there.
    pub fn insert(&mut self, key: String, value: String)
        requires
            old(self).wf(),
        ensures
            final(self).wf(),
            final(self)@ == old(self)@.insert(key@, value@),
    {
        let ghost old_keys = key_views(self.keys@);
        if !self.entries.contains_key(key.as_str()) {
            let k = key.clone();
            self.keys.push(k);
            proof {
                assert(key_views(self.keys@) =~= old_keys.push(key@));
                assert(!old_keys.contains(key@));
                assert forall|i: int, j: int|
                    0 <= i < key_views(self.keys@).len() && 0 <= j < key_views(self.keys@).len()
                        && i != j implies key_views(self.keys@)[i] != key_views(self.keys@)[j] by {
                    if i < old_keys.len() && j < old_keys.len() {
                    } else if i < old_keys.len() {
                        assert(old_keys.contains(old_keys[i]));
                    } else {
                        assert(old_keys.contains(old_keys[j]));
                    }
                }
            }
        }
        let ghost mid_keys = key_views(self.keys@);
        self.entries.insert(key, value);
        proof {
            assert forall|k: Seq<char>| #[trigger]
                key_views(self.keys@).contains(k) <==> self.entries@.contains_key(k) by {
                if k == key@ {
                    if old_keys.contains(k) {
                        assert(mid_keys =~= old_keys);
                    } else {
                        assert(mid_keys[mid_keys.len() - 1] == k);
                    }
                } else {
                    if mid_keys.contains(k) && mid_keys != old_keys {
                        let i = choose|i: int| 0 <= i < mid_keys.len() && mid_keys[i] == k;
                        assert(old_keys[i] == k);
                    }
                    if old_keys.contains(k) && mid_keys != old_keys {
                        let i = choose|i: int| 0 <= i < old_keys.len() && old_keys[i] == k;
                        assert(mid_keys[i] == k);
                    }
                }
            }
            assert(self@ =~= old(self)@.insert(key@, value@));
        }
    }

    /// Removes what is stored under `key`, if anything.
    pub fn remove(&mut self, key: &str)
        requires
            old(self).wf(),
        ensures
            final(self).wf(),
            final(self)@ == old(self)@.remove(key@),
    {
        let owned = key.to_owned();
        match position_of(&self.keys, &owned) {
            Some(i) => {
                let ghost old_keys = key_views(self.keys@);
                self.keys.remove(i);
                self.entries.remove(key);
                proof {
                    let new_keys = key_views(self.keys@);
                    assert(old_keys[i as int] == key@);
                    assert(new_keys =~= old_keys.remove(i as int));
                    assert forall|a: int, b: int|
                        0 <= a < new_keys.len() && 0 <= b < new_keys.len() && a != b implies new_keys[a]
                        != new_keys[b] by {
                        let oa = if a < i { a } else { a + 1 };
                        let ob = if b < i { b } else { b + 1 };
                        assert(new_keys[a] == old_keys[oa]);
                        assert(new_keys[b] == old_keys[ob]);
                    }
                    assert forall|k: Seq<char>| #[trigger]
                        new_keys.contains(k) <==> self.entries@.contains_key(k) by {
                        if new_keys.contains(k) {
                            let a = choose|a: int| 0 <= a < new_keys.len() && new_keys[a] == k;
                            let oa = if a < i { a } else { a + 1 };
                            assert(old_keys[oa] == k);
                            assert(old_keys.contains(k));
                            assert(k != key@);
                        }
                        if self.entries@.contains_key(k) {
                            assert(old_keys.contains(k));
                            let o = choose|o: int| 0 <= o < old_keys.len() && old_keys[o] == k;
                            assert(o != i);
                            let a = if o < i { o } else { o - 1 };
                            assert(new_keys[a] == k);
                        }
                    }
                    assert(self@ =~= old(self)@.remove(key@));
                }
            },
            None => {
                proof {
                    assert(!self.entries@.contains_key(key@));
                    assert(self@ =~= old(self)@.remove(key@));
                }
            },
        }
    }

    /// The keys of the store, each once, in the order they were first stored.
    pub fn keys(&self) -> (r: Vec<String>)
        requires
            self.wf(),
        ensures
            key_views(r@).no_duplicates(),
            forall|k: Seq<char>| key_views(r@).contains(k) <==> self@.contains_key(k),
    {
        let mut r: Vec<String> = Vec::new();
        let mut i: usize = 0;
        while i < self.keys.len()
            invariant
                i <= self.keys@.len(),
                r@.len() == i,
                forall|j: int| 0 <= j < i ==> r@[j]@ == self.keys@[j]@,
            decreases self.keys@.len() - i,
        {
            r.push(self.keys[i].clone());
            i = i + 1;
        }
        proof {
            assert(key_views(r@) =~= key_views(self.keys@));
            assert forall|k: Seq<char>| key_views(r@).contains(k) <==> self@.contains_key(k) by {
                assert(key_views(self.keys@).contains(k) <==> self.entries@.contains_key(k));
            }
        }
        r
    }

    /// Removes everything from the store.
    pub fn clear(&mut self)
        ensures
            final(self).wf(),
            final(self)@ == Map::<Seq<char>, Seq<char>>::empty(),
    {
        self.entries.clear();
        self.keys.clear();
        proof {
            assert(key_views(self.keys@) =~= Seq::<Seq<char>>::empty());
            assert(self@ =~= Map::<Seq<char>, Seq<char>>::empty());
        }
    }
}

} // verus!
