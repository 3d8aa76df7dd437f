use mikumikuloader::resolver::{asset_prefix, patched_motions, resolve_character};

fn motions(names: &[&str]) -> Vec<String> {
    names.iter().map(|n| n.to_string()).collect()
}

#[test]
fn asset_prefix_with_several_underscores() {
    assert_eq!(asset_prefix("v2_20mizuki_casual"), "v2_20mizuki");
    assert_eq!(asset_prefix("01ichika_cloth001_extra"), "01ichika_cloth001");
}

#[test]
fn asset_prefix_with_one_underscore() {
    assert_eq!(asset_prefix("09kohane_normal"), "09kohane");
}

#[test]
fn asset_prefix_keeps_marked_multipart_names() {
    // One underscore, but the head holds the multi-part marker.
    assert_eq!(asset_prefix("v2x_test"), "v2x_test");
}

#[test]
fn asset_prefix_without_underscores() {
    assert_eq!(asset_prefix("plainname"), "plainname");
}

#[test]
fn patch_inserts_the_missing_entry_for_the_one_costume() {
    let list = motions(&["w-a", "face_sleepy_02", "face_x"]);
    let patched = patched_motions("v2_20mizuki_casual", &list);
    assert_eq!(
        patched,
        motions(&["w-a", "face_sleepy_02", "face_sleepy_03", "face_x"])
    );
}

#[test]
fn patch_leaves_other_costumes_alone() {
    let list = motions(&["w-a", "face_sleepy_02"]);
    assert_eq!(patched_motions("09kohane_normal", &list), list);
}

#[test]
fn patch_without_the_sibling_entry_changes_nothing() {
    let list = motions(&["w-a", "face_x"]);
    assert_eq!(patched_motions("v2_20mizuki_casual", &list), list);
}

#[test]
fn resolver_selects_pose_and_expression() {
    let list = motions(&["w-pose1", "w-pose2", "face_a", "face_b"]);
    let data = resolve_character(286, "09kohane_normal", 1, 2, &list);
    assert_eq!(data.id, 286);
    assert_eq!(data.motion_name, "w-pose2");
    // The expression index is 1-based, counted from the first face entry.
    assert_eq!(data.facial_name, "face_b");
    assert_eq!(data.costume_type, "09kohane_normal");
}

#[test]
fn resolver_falls_back_on_an_out_of_range_pose() {
    let list = motions(&["w-pose1", "face_a"]);
    let data = resolve_character(1, "09kohane_normal", 9, 1, &list);
    assert_eq!(data.motion_name, "w-adult-blushed01");
    assert_eq!(data.facial_name, "face_a");
}

#[test]
fn resolver_falls_back_on_an_out_of_range_expression() {
    let list = motions(&["w-pose1", "face_a"]);
    let data = resolve_character(1, "09kohane_normal", 0, 5, &list);
    assert_eq!(data.facial_name, "face_cry_01");
    let data = resolve_character(1, "09kohane_normal", 0, 0, &list);
    assert_eq!(data.facial_name, "face_cry_01");
}

#[test]
fn resolver_falls_back_without_face_entries() {
    let list = motions(&["w-pose1", "w-pose2"]);
    let data = resolve_character(1, "09kohane_normal", 0, 1, &list);
    assert_eq!(data.facial_name, "face_cry_01");
}

#[test]
fn resolver_counts_the_patched_entry() {
    // For the patched costume the inserted entry shifts the indices that
    // follow its sibling.
    let list = motions(&["w-a", "face_sleepy_02", "face_x"]);
    let data = resolve_character(20, "v2_20mizuki_casual", 0, 2, &list);
    assert_eq!(data.facial_name, "face_sleepy_03");
}
