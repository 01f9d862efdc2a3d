use interplex::cache::disk::{DiskCachedObject, DiskRead};
use interplex::cache::CacheError;
use interplex::server::cache::{status_message, CacheOperation, MyCacheService, ServiceLookup};
use interplex::server::{default_cache_path, ServerConfiguration, ServerFactory};

fn reply(l: ServiceLookup) -> Result<String, String> {
    match l {
        ServiceLookup::Reply(r) => r,
        ServiceLookup::ReadFile(p) => panic!("unexpected file read of {}", p),
    }
}

#[test]
fn memory_service_round_trip() {
    let mut s = MyCacheService::new(true, "/unused");
    assert!(s.memory_only_cache());
    assert!(matches!(s.set("1", "2".to_string()), Ok(None)));
    assert_eq!(reply(s.get("1")), Ok("2".to_string()));
    assert_eq!(s.delete("1"), Ok(()));
    assert_eq!(reply(s.get("1")), Err("Cache get error: Value not found".to_string()));
}

#[test]
fn memory_service_tokenizes_keys() {
    let mut s = MyCacheService::new(true, "/unused");
    assert!(s.set("a  b", "v".to_string()).is_ok());
    assert_eq!(reply(s.get("a_b")), Ok("v".to_string()));
    assert!(reply(s.get("a  b")).is_err());
}

#[test]
fn disk_service_round_trip() {
    let mut s = MyCacheService::new(false, "/tmp/cached");
    assert!(!s.memory_only_cache());
    let w = s.set("1", "2".to_string()).ok().unwrap().unwrap();
    assert_eq!(w.path, "/tmp/cached/1");
    assert_eq!(w.object.value, "2");
    assert_eq!(reply(s.get("1")), Ok("2".to_string()));
    assert_eq!(s.delete("1"), Ok(()));
    match s.get("1") {
        ServiceLookup::ReadFile(p) => assert_eq!(p, "/tmp/cached/1"),
        ServiceLookup::Reply(_) => panic!("the memory copy was deleted"),
    }
}

#[test]
fn disk_service_refuses_empty_key() {
    let mut s = MyCacheService::new(false, "/tmp/cached");
    match s.set("", "v".to_string()) {
        Err(m) => assert_eq!(m, "Cache set error: Key not found"),
        Ok(_) => panic!("an empty key must be refused"),
    }
}

#[test]
fn disk_service_finishes_reads() {
    let mut s = MyCacheService::new(false, "/tmp/cached");
    assert_eq!(
        s.get_from_disk("k", DiskRead::Missing),
        Err("Cache get error: Value not found".to_string())
    );
    assert_eq!(
        s.get_from_disk("k", DiskRead::Failed("permission denied".to_string())),
        Err("Cache get error: permission denied".to_string())
    );
    assert_eq!(
        s.get_from_disk("k", DiskRead::Loaded(DiskCachedObject { value: "v".to_string() })),
        Ok("v".to_string())
    );
    assert_eq!(reply(s.get("k")), Ok("v".to_string()));
}

#[test]
fn status_messages_name_the_request() {
    assert_eq!(
        status_message(CacheOperation::Store, &CacheError::Storage("disk full".to_string())),
        "Cache set error: disk full"
    );
    assert_eq!(
        status_message(CacheOperation::Fetch, &CacheError::ValueNotFound),
        "Cache get error: Value not found"
    );
    assert_eq!(
        status_message(CacheOperation::Delete, &CacheError::KeyNotFound),
        "Cache remove error: Key not found"
    );
}

#[test]
fn factory_builds_with_its_configuration() {
    let config = ServerConfiguration {
        port: 50051,
        memory_only_cache: false,
        cache_path: "/tmp/cached".to_string(),
    };
    let server = ServerFactory::default().with_configuration(config.clone()).build();
    let c = server.server_config();
    assert_eq!(c.port, 50051);
    assert!(!c.memory_only_cache);
    assert_eq!(c.cache_path, "/tmp/cached");
    assert_eq!(server.listen_address(), "0.0.0.0:50051");
}

#[test]
fn default_factory_configuration() {
    let server = ServerFactory::default().build();
    let c = server.server_config();
    assert_eq!(c.port, 0);
    assert!(!c.memory_only_cache);
    assert_eq!(c.cache_path, "");
    assert_eq!(server.listen_address(), "0.0.0.0:0");
    let d = ServerConfiguration::default();
    assert_eq!(d.port, 0);
}

#[test]
fn listen_address_of_negative_and_extreme_ports() {
    for port in [8080i64, -1, i64::MAX, i64::MIN, 9, 10, 99, 100] {
        let config = ServerConfiguration { port, memory_only_cache: true, cache_path: String::new() };
        let server = ServerFactory::default().with_configuration(config).build();
        assert_eq!(server.listen_address(), format!("0.0.0.0:{}", port));
    }
}

#[test]
fn default_cache_path_is_under_home() {
    assert_eq!(default_cache_path("/home/u"), "/home/u/.cached");
    assert_eq!(default_cache_path(""), "/.cached");
}
