use mikumikuloader::strutil::{contains_substr, file_stem, replace_all, str_eq};
use mikumikuloader::tables::{build_character_map, capitalize, known_character};

#[test]
fn character_map_holds_all_characters() {
    let map = build_character_map();
    assert_eq!(map.len(), 26);
    assert_eq!(map[0], ("ichika".to_string(), "01_ichika".to_string()));
    assert_eq!(map[8], ("kohane".to_string(), "09_kohane".to_string()));
    assert_eq!(map[25], ("kaito".to_string(), "26_kaito".to_string()));
}

#[test]
fn known_characters_are_recognized() {
    assert!(known_character("kohane"));
    assert!(known_character("miku"));
    assert!(!known_character("somebody"));
    assert!(!known_character(""));
}

#[test]
fn capitalize_uppercases_the_first_character() {
    assert_eq!(capitalize("kohane"), "Kohane");
    assert_eq!(capitalize("a"), "A");
    assert_eq!(capitalize(""), "");
    assert_eq!(capitalize("Already"), "Already");
    // A first character whose uppercase form expands keeps the rest.
    assert_eq!(capitalize("\u{df}x"), "SSx");
}

#[test]
fn string_equality_compares_characters() {
    assert!(str_eq("abc", "abc"));
    assert!(!str_eq("abc", "abd"));
    assert!(!str_eq("abc", "ab"));
    assert!(str_eq("", ""));
}

#[test]
fn substring_search_finds_tokens() {
    assert!(contains_substr("face_cry_01", "face_"));
    assert!(!contains_substr("w-cute-glad01", "face_"));
    assert!(contains_substr("anything", ""));
    assert!(!contains_substr("ab", "abc"));
}

#[test]
fn file_stem_takes_the_last_component_without_extension() {
    assert_eq!(file_stem("/img/background_special/bg_a001101.png"), "bg_a001101");
    assert_eq!(file_stem("c.png"), "c");
    assert_eq!(file_stem("a/b/"), "b");
    assert_eq!(file_stem(".hidden"), ".hidden");
    assert_eq!(file_stem("a.b.c"), "a.b");
    assert_eq!(file_stem(".."), "");
    assert_eq!(file_stem(""), "");
}

#[test]
fn replace_all_rewrites_every_occurrence() {
    assert_eq!(replace_all("x/OnDemand/y", "OnDemand", "StartApp"), "x/StartApp/y");
    assert_eq!(replace_all("abcabc", "abc", "z"), "zz");
    assert_eq!(replace_all("nothing here", "OnDemand", "StartApp"), "nothing here");
    assert_eq!(replace_all("aaa", "aa", "b"), "ba");
}
