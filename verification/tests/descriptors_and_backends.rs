use my_music::backend::{
    BackendRegistry, ConnectionCache, FsConfig, S3Config, StorageBackend, StorageBackendConfig,
};
use my_music::error::ApiError;
use my_music::name_map::NameMap;
use my_music::source::{
    fallback_request, presign_parameters, DescriptorCache, GetSourceRequest, PresignOutcome,
    PresignParameters, Source, NANOS_PER_SEC, PRESIGN_VALID_FOR_SECS, REQ_VALID_FOR_NANOS,
    REQ_VALID_FOR_SECS, SAFETY_MARGIN_SECS,
};

fn fs(root: &str) -> StorageBackendConfig {
    StorageBackendConfig::Fs(FsConfig { root: root.to_string() })
}

fn s3(bucket: &str) -> StorageBackendConfig {
    StorageBackendConfig::S3(S3Config {
        access_key_id: "key".to_string(),
        secret_access_key: "SECRET-REDACTED".to_string(),
        region: "eu".to_string(),
        bucket: bucket.to_string(),
        disable_config_load: true,
    })
}

fn presigned(uri: &str) -> GetSourceRequest {
    GetSourceRequest {
        method: "GET".to_string(),
        uri: uri.to_string(),
        headers: vec![("x-signed".to_string(), "1".to_string())],
    }
}

#[test]
fn descriptor_times() {
    assert_eq!(REQ_VALID_FOR_SECS, 259_200);
    assert_eq!(SAFETY_MARGIN_SECS, 3_600);
    assert_eq!(PRESIGN_VALID_FOR_SECS, 262_800);
}

#[test]
fn fallback_descriptor_points_at_this_server() {
    assert_eq!(
        fallback_request(42),
        GetSourceRequest {
            method: "GET".to_string(),
            uri: "/sources/42/data".to_string(),
            headers: Vec::new(),
        }
    );
    assert_eq!(fallback_request(-7).uri, "/sources/-7/data");
    assert_eq!(fallback_request(i64::MIN).uri, "/sources/-9223372036854775808/data");
}

#[test]
fn presign_parameters_follow_source() {
    let source = Source {
        id: 5,
        path: "songs/a.flac".to_string(),
        mime_type: "audio/flac".to_string(),
        storage_backend_name: "init".to_string(),
    };
    assert_eq!(
        presign_parameters(&source),
        PresignParameters {
            path: "songs/a.flac".to_string(),
            expires_in_secs: 262_800,
            content_type: "audio/flac".to_string(),
            cache_control: "private, max-age=259200, immutable".to_string(),
        }
    );
}

const SECOND: u64 = 1_000_000_000;
const TTL: u64 = 259_200 * SECOND;

#[test]
fn descriptor_is_served_from_cache_within_ttl() {
    assert_eq!(NANOS_PER_SEC, SECOND);
    assert_eq!(REQ_VALID_FOR_NANOS, TTL);
    let mut cache = DescriptorCache::new();
    assert_eq!(cache.lookup(1, 0), None);
    let issued = presigned("https://bucket/one?sig=a");
    assert_eq!(cache.resolve(1, 1_000, PresignOutcome::Presigned(issued.clone())), &issued);
    assert_eq!(cache.lookup(1, 1_000), Some(&issued));
    assert_eq!(cache.lookup(1, 1_000 + TTL), Some(&issued));
    assert_eq!(cache.lookup(1, 500), Some(&issued));
    assert_eq!(cache.lookup(2, 1_000), None);
}

#[test]
fn descriptor_expires_after_ttl_and_is_renewed() {
    let mut cache = DescriptorCache::new();
    let old = presigned("https://bucket/one?sig=a");
    cache.resolve(1, 1_000, PresignOutcome::Presigned(old));
    assert_eq!(cache.lookup(1, 1_000 + TTL + 1), None);
    let renewed = presigned("https://bucket/one?sig=b");
    cache.resolve(1, 1_000 + TTL + 1, PresignOutcome::Presigned(renewed.clone()));
    assert_eq!(cache.lookup(1, 1_000 + TTL + 1), Some(&renewed));
    assert_eq!(cache.lookup(1, 1_000 + TTL + 1 + TTL), Some(&renewed));
    assert_eq!(cache.lookup(1, 1_000 + TTL + 1 + TTL + 1), None);
}

#[test]
fn unsupported_or_failed_presign_falls_back() {
    let mut cache = DescriptorCache::new();
    assert_eq!(cache.resolve(3, 10, PresignOutcome::Unsupported), &fallback_request(3));
    assert_eq!(cache.lookup(3, 11), Some(&fallback_request(3)));
    assert_eq!(cache.resolve(4, 10, PresignOutcome::Failed), &fallback_request(4));
    assert_eq!(cache.lookup(4, 11), Some(&fallback_request(4)));
    assert_eq!(cache.lookup(3, 11), Some(&fallback_request(3)));
}

#[test]
fn registering_twice_keeps_first_config() {
    let mut registry = BackendRegistry::new();
    assert_eq!(registry.resolve("init"), Err(ApiError::NotFound));
    assert!(registry.register("init", fs("/data")));
    assert!(!registry.register("init", s3("bucket")));
    assert_eq!(
        registry.resolve("init"),
        Ok(&StorageBackend { name: "init".to_string(), config: fs("/data") })
    );
    assert!(registry.register("other", s3("bucket")));
    assert_eq!(
        registry.resolve("other"),
        Ok(&StorageBackend { name: "other".to_string(), config: s3("bucket") })
    );
    assert_eq!(
        registry.resolve("init"),
        Ok(&StorageBackend { name: "init".to_string(), config: fs("/data") })
    );
    assert_eq!(registry.resolve("Init"), Err(ApiError::NotFound));
}

#[test]
fn connection_cache_keeps_one_connection_per_name() {
    let mut cache: ConnectionCache<u32> = ConnectionCache::new();
    assert_eq!(cache.get("init"), None);
    cache.insert("init", 1);
    assert_eq!(cache.get("init"), Some(&1));
    cache.insert("other", 2);
    cache.insert("init", 3);
    assert_eq!(cache.get("init"), Some(&3));
    assert_eq!(cache.get("other"), Some(&2));
    assert_eq!(cache.get("ini"), None);
    assert_eq!(cache.get(""), None);
}

#[test]
fn name_map_insert_and_get() {
    let mut map: NameMap<&str> = NameMap::new();
    assert!(!map.contains("a"));
    map.insert("a".to_string(), "one");
    map.insert("b".to_string(), "two");
    map.insert("a".to_string(), "three");
    assert_eq!(map.get("a"), Some(&"three"));
    assert_eq!(map.get("b"), Some(&"two"));
    assert_eq!(map.get("c"), None);
    assert!(map.contains("b"));
}
