use mikumikuloader::injections::{abinfo_request_path, assetbundle_prefix, merge_injections};

#[test]
fn new_injections_are_appended_enabled() {
    let mut map = vec![("kept".to_string(), "old.ab".to_string(), false)];
    let injected = vec![("fresh".to_string(), "new.ab".to_string())];
    merge_injections(&mut map, &injected);
    assert_eq!(
        map,
        vec![
            ("kept".to_string(), "old.ab".to_string(), false),
            ("fresh".to_string(), "new.ab".to_string(), true),
        ]
    );
}

#[test]
fn existing_injections_are_kept_as_they_are() {
    let mut map = vec![("res".to_string(), "old.ab".to_string(), false)];
    let injected = vec![("res".to_string(), "new.ab".to_string())];
    merge_injections(&mut map, &injected);
    assert_eq!(map, vec![("res".to_string(), "old.ab".to_string(), false)]);
}

#[test]
fn repeated_declarations_are_added_once() {
    let mut map: Vec<(String, String, bool)> = Vec::new();
    let injected = vec![
        ("res".to_string(), "one.ab".to_string()),
        ("res".to_string(), "two.ab".to_string()),
    ];
    merge_injections(&mut map, &injected);
    assert_eq!(map, vec![("res".to_string(), "one.ab".to_string(), true)]);
}

#[test]
fn request_prefixes_are_assembled_from_the_versions() {
    assert_eq!(
        assetbundle_prefix("4.1.0.10", "abcdef", "android"),
        "4.1.0.10/abcdef/android"
    );
    assert_eq!(
        abinfo_request_path("5.2.1.10", "android"),
        "/api/version/5.2.1.10/os/android"
    );
}
