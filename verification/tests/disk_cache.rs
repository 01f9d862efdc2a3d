use interplex::cache::disk::{join_path, new_disk_cache, DiskCache, DiskCachedObject, DiskLookup, DiskRead};
use interplex::cache::CacheError;

fn cache() -> DiskCache {
    new_disk_cache("/tmp/interplex-test")
}

fn value_of(l: DiskLookup) -> String {
    match l {
        DiskLookup::Hit(o) => o.value,
        DiskLookup::ReadFile(p) => panic!("expected a hit, got a read of {}", p),
    }
}

#[test]
fn test_set_and_get_disk() {
    let mut cache = cache();

    // Set a value
    let set_result = cache.set("key1", "value1".to_string());
    assert!(set_result.is_ok());

    // Get the value
    let get_result = value_of(cache.get("key1"));
    assert_eq!(get_result, "value1".to_string());
}

#[test]
fn test_get_non_existent_key_disk() {
    let mut cache = cache();

    // Try to get a value for a non-existent key
    let path = match cache.get("non_existent_key") {
        DiskLookup::ReadFile(p) => p,
        DiskLookup::Hit(_) => panic!("nothing was stored"),
    };
    assert_eq!(path, "/tmp/interplex-test/non_existent_key");
    let get_result = cache.get_from_disk("non_existent_key", DiskRead::Missing);
    assert!(get_result.is_err());
}

#[test]
fn test_update_value_disk() {
    let mut cache = cache();

    let set_result = cache.set("key1", "value1".to_string());
    assert!(set_result.is_ok());

    let set_result = cache.set("key1", "value2".to_string());
    assert!(set_result.is_ok());

    assert_eq!(value_of(cache.get("key1")), "value2".to_string());
}

#[test]
fn test_tokenized_key_disk() {
    let mut cache = cache();

    let set_result = cache.set("token key with spaces", "value1".to_string());
    assert!(set_result.is_ok());

    // the disk cache keeps the key as given
    assert_eq!(value_of(cache.get("token key with spaces")), "value1".to_string());
}

#[test]
fn test_empty_key_disk() {
    let mut cache = cache();

    let set_result = cache.set("", "value1".to_string());
    assert!(set_result.is_err());
}

#[test]
fn empty_key_is_refused_with_key_not_found() {
    let mut cache = cache();
    match cache.set("", "v".to_string()) {
        Err(e) => {
            assert!(matches!(e, CacheError::KeyNotFound));
            assert_eq!(e.message(), "Key not found");
        }
        Ok(_) => panic!("an empty key must be refused"),
    }
    // nothing was stored
    assert!(matches!(cache.get(""), DiskLookup::ReadFile(_)));
}

#[test]
fn set_names_the_file_write() {
    let mut cache = cache();
    let w = cache.set("key1", "value1".to_string()).ok().unwrap();
    assert_eq!(w.path, "/tmp/interplex-test/key1");
    assert_eq!(w.object.value, "value1");
    assert_eq!(cache.get_file_path("key1"), "/tmp/interplex-test/key1");
    assert_eq!(cache.cache_dir(), "/tmp/interplex-test");
}

#[test]
fn loaded_entry_is_kept_in_memory() {
    let mut cache = cache();
    let loaded = DiskRead::Loaded(DiskCachedObject { value: "from disk".to_string() });
    let r = cache.get_from_disk("k", loaded);
    assert_eq!(r.ok().unwrap().value, "from disk");
    assert_eq!(value_of(cache.get("k")), "from disk");
}

#[test]
fn failed_read_reports_its_reason_and_keeps_nothing() {
    let mut cache = cache();
    match cache.get_from_disk("k", DiskRead::Failed("expected value at line 1 column 1".to_string())) {
        Err(CacheError::Storage(m)) => assert_eq!(m, "expected value at line 1 column 1"),
        _ => panic!("a failed read must fail"),
    }
    match cache.get_from_disk("k", DiskRead::Missing) {
        Err(e) => assert_eq!(e.message(), "Value not found"),
        Ok(_) => panic!("a missing file must fail"),
    }
    assert!(matches!(cache.get("k"), DiskLookup::ReadFile(_)));
}

#[test]
fn remove_forgets_the_memory_copy() {
    let mut cache = cache();
    cache.set("k", "v".to_string()).ok().unwrap();
    cache.remove("k");
    assert!(matches!(cache.get("k"), DiskLookup::ReadFile(_)));
}

#[test]
fn join_path_agrees_with_std_path_join() {
    let dirs = ["/tmp/c", "/tmp/c/", "", "rel", "a/b/", "/"];
    let names = ["key1", "", "a b", "/abs", "x/y", "../up", "/"];
    for d in dirs.iter() {
        for n in names.iter() {
            let expected = std::path::Path::new(d).join(n);
            let got = join_path(d, n);
            assert_eq!(got, expected.to_str().unwrap(), "join of {:?} and {:?}", d, n);
        }
    }
}

#[test]
fn join_path_separates_with_one_slash() {
    assert_eq!(join_path("/home/u/.cached", "k"), "/home/u/.cached/k");
    assert_eq!(join_path("/home/u/.cached/", "k"), "/home/u/.cached/k");
    assert_eq!(join_path("/home/u/.cached", "/etc/k"), "/etc/k");
    assert_eq!(join_path("", "k"), "k");
}
