use mikumikuloader::manifest::{
    apply_invalidation, format_reload_hash, invalidate_cache, ABInfoBundle, ABInfoRoot,
    CacheInvalidDuration, InvalidateCacheEntry,
};

fn sample_bundle(path_hint: &str) -> ABInfoBundle {
    ABInfoBundle {
        bundle_name: path_hint.to_string(),
        cache_file_name: "cache.bin".to_string(),
        cache_directory_name: "dir".to_string(),
        hash: "originalhash".to_string(),
        category: "OnDemand".to_string(),
        crc: 1,
        file_size: 2,
        dependencies: vec!["dep".to_string()],
        paths: vec!["x/OnDemand/y".to_string(), "other".to_string()],
        is_builtin: false,
    }
}

fn sample_root() -> ABInfoRoot {
    ABInfoRoot {
        version: "1.0.0".to_string(),
        os: "android".to_string(),
        bundles: vec![
            ("a/b".to_string(), sample_bundle("a/b")),
            ("c/d".to_string(), sample_bundle("c/d")),
        ],
    }
}

#[test]
fn a_once_only_invalidation_writes_the_sentinel_hash() {
    let mut root = sample_root();
    let directives = vec![InvalidateCacheEntry {
        resource_path: "a/b".to_string(),
        duration: CacheInvalidDuration::InitiallyInvalid,
    }];
    invalidate_cache(&mut root, &directives);
    let bundle = &root.bundles[0].1;
    assert_eq!(bundle.hash, "FakePlaceholderHash0000000000000");
    assert_eq!(bundle.category, "StartApp");
    assert_eq!(bundle.paths[0], "x/StartApp/y");
    assert_eq!(bundle.paths[1], "other");
    assert!((500..10000).contains(&bundle.crc));
    assert!((500..10000).contains(&bundle.file_size));
    // The unrelated entry is untouched.
    assert_eq!(root.bundles[1].1, sample_bundle("c/d"));
}

#[test]
fn an_every_reload_invalidation_writes_a_timestamped_hash() {
    let mut root = sample_root();
    let directives = vec![InvalidateCacheEntry {
        resource_path: "a/b".to_string(),
        duration: CacheInvalidDuration::PermanentlyInvalid,
    }];
    invalidate_cache(&mut root, &directives);
    let hash = &root.bundles[0].1.hash;
    assert!(hash.starts_with("FakePlaceholderHash"));
    assert_eq!(hash.len(), 32);
    assert!(hash["FakePlaceholderHash".len()..]
        .chars()
        .all(|c| c.is_ascii_digit()));
    assert_ne!(hash, "FakePlaceholderHash0000000000000");
}

#[test]
fn a_directive_without_a_matching_entry_changes_nothing() {
    let mut root = sample_root();
    let original = sample_root();
    let directives = vec![InvalidateCacheEntry {
        resource_path: "missing/path".to_string(),
        duration: CacheInvalidDuration::InitiallyInvalid,
    }];
    invalidate_cache(&mut root, &directives);
    assert_eq!(root, original);
}

#[test]
fn apply_rewrites_one_entry_in_place() {
    let mut bundle = sample_bundle("a/b");
    apply_invalidation(&mut bundle, &CacheInvalidDuration::InitiallyInvalid);
    assert_eq!(bundle.hash, "FakePlaceholderHash0000000000000");
    assert_eq!(bundle.category, "StartApp");
    assert_eq!(bundle.paths[0], "x/StartApp/y");
    assert_eq!(bundle.bundle_name, "a/b");
    assert_eq!(bundle.cache_file_name, "cache.bin");
    assert_eq!(bundle.dependencies, vec!["dep".to_string()]);
    assert!(!bundle.is_builtin);
}

#[test]
fn reload_hash_formatting_is_zero_padded() {
    assert_eq!(
        format_reload_hash(2024, 3, 7, 5, 42),
        "FakePlaceholderHash2024030705042"
    );
    assert_eq!(
        format_reload_hash(999, 12, 31, 59, 999),
        "FakePlaceholderHash0999123159999"
    );
}
