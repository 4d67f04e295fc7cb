//! The cache of artifacts.

use bytes::Bytes;
use dragonfly::artifact_cache::{
    next_chunk, part_of, ArtifactCache, Asked, GetResult, DEFAULT_MAX_BYTES, STREAM_CHUNK,
};

fn share_allocation(a: &Bytes, b: &Bytes) -> bool {
    a.as_ptr() == b.as_ptr()
}

/// The artifact from the cache, or loaded into it.
fn get_or_load(cache: &mut ArtifactCache, path: &str, file: &[u8]) -> GetResult {
    match cache.get_or_load(path) {
        Asked::Cached(bytes) => GetResult::Cached(bytes),
        Asked::Read => cache.finish_load(path, Some(file.to_vec())).unwrap(),
        Asked::Wait => panic!("nobody else reads"),
    }
}

fn cached(r: GetResult) -> Bytes {
    match r {
        GetResult::Cached(b) => b,
        GetResult::TooLarge(n) => panic!("expected Cached, was too large with {n} bytes"),
    }
}

#[test]
fn loads_on_miss_then_serves_subsequent_calls_from_memory() {
    let mut cache = ArtifactCache::new(1024);
    let file = b"hello artifact cache";
    let first = cached(get_or_load(&mut cache, "load_once.bin", file));
    let second = cached(get_or_load(&mut cache, "load_once.bin", file));
    assert!(share_allocation(&first, &second), "second call re-read from disk");
    assert_eq!(&first[..], file);
}

#[test]
fn single_flight_loads_once_for_n_concurrent_callers() {
    let mut cache = ArtifactCache::new(65_536);
    let path = "singleflight.bin";
    let file = [7u8; 4096];

    // All callers ask before the first of them has read the file.
    let mut reads = 0;
    for _ in 0..16 {
        match cache.get_or_load(path) {
            Asked::Read => reads += 1,
            Asked::Wait => {}
            Asked::Cached(_) => panic!("nothing is cached yet"),
        }
    }
    assert_eq!(reads, 1, "no single-flight");
    let mut results = vec![cached(cache.finish_load(path, Some(file.to_vec())).unwrap())];
    for _ in 1..16 {
        match cache.get_or_load(path) {
            Asked::Cached(b) => results.push(b),
            _ => panic!("expected Cached"),
        }
    }
    let first_ptr = results[0].as_ptr();
    for b in &results {
        assert_eq!(
            b.as_ptr(),
            first_ptr,
            "concurrent caller got an independent allocation (no single-flight)"
        );
    }
}

#[test]
fn other_traffic_causes_no_second_read() {
    let mut cache = ArtifactCache::new(10);
    assert!(matches!(cache.get_or_load("a"), Asked::Read));
    assert!(matches!(cache.get_or_load("b"), Asked::Read));
    assert!(cache.finish_load("b", Some(vec![1; 10])).is_some());
    assert!(matches!(cache.get_or_load("c"), Asked::Read));
    assert!(cache.finish_load("c", None).is_none());
    assert!(matches!(cache.get_or_load("a"), Asked::Wait));
    assert!(cache.finish_load("a", Some(vec![2; 6])).is_some());
    assert_eq!(cache.current_bytes(), 6);
    for _ in 0..3 {
        assert!(matches!(cache.get_or_load("b"), Asked::Read | Asked::Wait));
        assert!(matches!(cache.get_or_load("a"), Asked::Cached(_)));
    }
}

#[test]
fn failed_reads_are_tried_again() {
    let mut cache = ArtifactCache::new(10);
    assert!(matches!(cache.get_or_load("a"), Asked::Read));
    assert!(matches!(cache.get_or_load("b"), Asked::Read));
    assert!(matches!(cache.get_or_load("a"), Asked::Wait));
    assert!(cache.finish_load("a", None).is_none());
    assert!(matches!(cache.get_or_load("a"), Asked::Read));
    assert!(matches!(cache.finish_load("a", Some(vec![0; 11])), Some(GetResult::TooLarge(11))));
    assert!(matches!(cache.get_or_load("a"), Asked::Read));
    assert!(matches!(cache.get_or_load("b"), Asked::Wait));
}

#[test]
fn slice_is_zero_copy() {
    let mut cache = ArtifactCache::new(1_048_576);
    let full = cached(get_or_load(&mut cache, "slice.bin", &[9u8; 100_000]));
    let mid = part_of(&full, 40_000, 60_000);
    assert_eq!(mid.as_ptr() as usize, full.as_ptr() as usize + 40_000);
    assert_eq!(&mid[..3], &full[40_000..40_003], "slice content differs");
    assert_eq!(mid.len(), 20_000);
}

#[test]
fn evicts_lru_when_cap_exceeded() {
    const SIZE: usize = 1024;
    let mut cache = ArtifactCache::new(SIZE as u64);
    let a = [1u8; SIZE];
    let b = [2u8; SIZE];
    let first_a = cached(get_or_load(&mut cache, "a.bin", &a));
    let _ = cached(get_or_load(&mut cache, "b.bin", &b));
    let second_a = cached(get_or_load(&mut cache, "a.bin", &a));
    assert!(
        !share_allocation(&first_a, &second_a),
        "A was not evicted (re-load returned the cached allocation)"
    );
}

#[test]
fn oversized_file_is_not_cached() {
    let mut cache = ArtifactCache::new(100);
    match get_or_load(&mut cache, "oversize.bin", &[0u8; 200]) {
        GetResult::TooLarge(len) => assert_eq!(len, 200),
        GetResult::Cached(_) => panic!("oversized file was cached"),
    }
    assert_eq!(cache.current_bytes(), 0, "oversized file counted toward cap");
}

#[test]
fn use_protects_from_eviction() {
    let mut cache = ArtifactCache::new(30);
    let _ = cache.load("a", vec![1; 10]);
    let _ = cache.load("b", vec![2; 10]);
    let _ = cache.load("c", vec![3; 10]);
    assert_eq!(cache.current_bytes(), 30);
    assert!(cache.get_cached("a").is_some());
    let _ = cache.load("d", vec![4; 10]);
    assert!(cache.get_cached("b").is_none());
    assert_eq!(&cache.get_cached("a").unwrap()[..], &[1; 10]);
    assert_eq!(cache.current_bytes(), 30);
}

#[test]
fn loading_again_replaces() {
    let mut cache = ArtifactCache::new(30);
    let _ = cache.load("a", vec![1; 10]);
    let _ = cache.load("a", vec![2; 20]);
    assert_eq!(cache.current_bytes(), 20);
    assert_eq!(&cache.get_cached("a").unwrap()[..], &[2; 20]);
}

#[test]
fn the_size_is_configured() {
    assert_eq!(ArtifactCache::max_bytes_from_env(Some("5000")), 5000);
    assert_eq!(ArtifactCache::max_bytes_from_env(Some("0")), DEFAULT_MAX_BYTES);
    assert_eq!(ArtifactCache::max_bytes_from_env(Some("lots")), DEFAULT_MAX_BYTES);
    assert_eq!(ArtifactCache::max_bytes_from_env(None), DEFAULT_MAX_BYTES);
}

#[test]
fn chunks_make_up_the_whole() {
    let file: Vec<u8> = (0..150_000u32).map(|i| (i % 251) as u8).collect();
    let mut cache = ArtifactCache::new(1_000_000);
    let mut remaining = cached(cache.load("f", file.clone()));
    let mut sent = Vec::new();
    let mut chunks = 0;
    while let Some(chunk) = next_chunk(&mut remaining) {
        assert!(chunk.len() <= STREAM_CHUNK);
        sent.extend_from_slice(&chunk);
        chunks += 1;
    }
    assert_eq!(chunks, 3);
    assert_eq!(sent, file);
}
