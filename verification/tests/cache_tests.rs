use jbundle::cache::RuntimeCache;
use jbundle::config::Target;
use jbundle::pack::{build_artifact, read_trailing};
use jbundle::u64_to_string;

// Acquire a runtime through the cache, counting how often the
// fetch-and-populate step actually runs.
fn ensure(cache: &mut RuntimeCache, version: u32, target: Target, fetches: &mut u32) -> String {
    match cache.lookup(version, target) {
        Some(path) => path,
        None => {
            *fetches += 1;
            let path = format!("/cache/jdk-{}", version);
            cache.commit(version, target, path.clone());
            path
        }
    }
}

#[test]
fn acquisition_fetches_only_once() {
    let mut cache = RuntimeCache::new();
    let mut fetches: u32 = 0;
    let first = ensure(&mut cache, 21, Target::LinuxX64, &mut fetches);
    assert_eq!(fetches, 1);
    let second = ensure(&mut cache, 21, Target::LinuxX64, &mut fetches);
    assert_eq!(fetches, 1);
    assert_eq!(first, second);
}

#[test]
fn distinct_keys_are_independent() {
    let mut cache = RuntimeCache::new();
    assert_eq!(cache.lookup(21, Target::LinuxX64), None);
    cache.commit(21, Target::LinuxX64, "/cache/a".to_string());
    assert_eq!(cache.lookup(21, Target::LinuxX64), Some("/cache/a".to_string()));
    assert_eq!(cache.lookup(21, Target::MacosX64), None);
    assert_eq!(cache.lookup(17, Target::LinuxX64), None);
    cache.commit(17, Target::LinuxX64, "/cache/b".to_string());
    assert_eq!(cache.lookup(17, Target::LinuxX64), Some("/cache/b".to_string()));
    assert_eq!(cache.lookup(21, Target::LinuxX64), Some("/cache/a".to_string()));
}

#[test]
fn artifact_round_trip_is_byte_exact() {
    let payload: Vec<u8> = (0u16..512).map(|b| (b % 251) as u8).collect();
    let artifact = build_artifact("f00dcafe", &payload, &["-Xmx64m".to_string()]);
    let tail = read_trailing(&artifact, payload.len());
    assert_eq!(tail, payload);

    // The size embedded in the stub is the exact payload byte count.
    let stub_len = artifact.len() - payload.len();
    let stub = String::from_utf8(artifact[..stub_len].to_vec()).unwrap();
    assert!(stub.contains("PAYLOAD_SIZE=512\n"));
}

#[test]
fn empty_payload_packs() {
    let payload: Vec<u8> = Vec::new();
    let artifact = build_artifact("00", &payload, &[]);
    let stub = jbundle::generate("00", 0, &[]);
    assert_eq!(artifact, stub.as_bytes());
    assert_eq!(read_trailing(&artifact, 0), Vec::<u8>::new());
}

#[test]
fn decimal_rendering_is_exact() {
    assert_eq!(u64_to_string(0), "0");
    assert_eq!(u64_to_string(7), "7");
    assert_eq!(u64_to_string(10), "10");
    assert_eq!(u64_to_string(21), "21");
    assert_eq!(u64_to_string(999999), "999999");
    assert_eq!(u64_to_string(u64::MAX), "18446744073709551615");
}
