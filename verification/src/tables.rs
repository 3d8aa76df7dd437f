//! Read-only lookup tables and the case-folding helpers used when matching
//! speaker tags against character keys.

use vstd::prelude::*;
use vstd::string::*;

use crate::strutil::push_char;

verus! {

broadcast use vstd::string::group_string_axioms;

/// The fixed association of character short names to their numbered asset
/// folder names.
pub open spec fn character_folder_pairs() -> Seq<(Seq<char>, Seq<char>)> {
    seq![
        ("ichika"@, "01_ichika"@),
        ("saki"@, "02_saki"@),
        ("honami"@, "03_honami"@),
        ("shiho"@, "04_shiho"@),
        ("minori"@, "05_minori"@),
        ("haruka"@, "06_haruka"@),
        ("airi"@, "07_airi"@),
        ("shizuku"@, "08_shizuku"@),
        ("kohane"@, "09_kohane"@),
        ("an"@, "10_an"@),
        ("akito"@, "11_akito"@),
        ("touya"@, "12_touya"@),
        ("tsukasa"@, "13_tsukasa"@),
        ("emu"@, "14_emu"@),
        ("nene"@, "15_nene"@),
        ("rui"@, "16_rui"@),
        ("kanade"@, "17_kanade"@),
        ("mafuyu"@, "18_mafuyu"@),
        ("ena"@, "19_ena"@),
        ("mizuki"@, "20_mizuki"@),
        ("miku"@, "21_miku"@),
        ("rin"@, "22_rin"@),
        ("len"@, "23_len"@),
        ("luka"@, "24_luka"@),
        ("meiko"@, "25_meiko"@),
        ("kaito"@, "26_kaito"@),
    ]
}

/// Whether `key` is one of the character short names of the table.
pub open spec fn is_known_character(key: Seq<char>) -> bool {
    exists|i: int|
        0 <= i < character_folder_pairs().len() && (#[trigger] character_folder_pairs()[i]).0
            == key
}

/// Decides whether `key` is one of the character short names.
pub fn known_character(key: &str) -> (r: bool)
    ensures
        r == is_known_character(key@),
{
    let map = build_character_map();
    let mut i: usize = 0;
    while i < map.len()
        invariant
            i <= map@.len(),
            map@.len() == character_folder_pairs().len(),
            forall|j: int|
                0 <= j < map@.len() ==> (#[trigger] map@[j]).0@ == character_folder_pairs()[j].0
                    && map@[j].1@ == character_folder_pairs()[j].1,
            forall|j: int| 0 <= j < i ==> (#[trigger] character_folder_pairs()[j]).0 != key@,
        decreases map@.len() - i,
    {
        if crate::strutil::str_eq(map[i].0.as_str(), key) {
            proof {
                assert((character_folder_pairs()[i as int]).0 == key@);
            }
            return true;
        }
        i += 1;
    }
    false
}

/// Builds the character short-name to asset-folder table as an ordered list
/// of pairs, exactly the pairs of [`character_folder_pairs`].
pub fn build_character_map() -> (r: Vec<(String, String)>)
    ensures
        r@.len() == character_folder_pairs().len(),
        forall|i: int|
            0 <= i < r@.len() ==> (#[trigger] r@[i]).0@ == character_folder_pairs()[i].0 && r@[i].1@
                == character_folder_pairs()[i].1,
{
    let mut v: Vec<(String, String)> = Vec::new();
    v.push((String::from_str("ichika"), String::from_str("01_ichika")));
    v.push((String::from_str("saki"), String::from_str("02_saki")));
    v.push((String::from_str("honami"), String::from_str("03_honami")));
    v.push((String::from_str("shiho"), String::from_str("04_shiho")));
    v.push((String::from_str("minori"), String::from_str("05_minori")));
    v.push((String::from_str("haruka"), String::from_str("06_haruka")));
    v.push((String::from_str("airi"), String::from_str("07_airi")));
    v.push((String::from_str("shizuku"), String::from_str("08_shizuku")));
    v.push((String::from_str("kohane"), String::from_str("09_kohane")));
    v.push((String::from_str("an"), String::from_str("10_an")));
    v.push((String::from_str("akito"), String::from_str("11_akito")));
    v.push((String::from_str("touya"), String::from_str("12_touya")));
    v.push((String::from_str("tsukasa"), String::from_str("13_tsukasa")));
    v.push((String::from_str("emu"), String::from_str("14_emu")));
    v.push((String::from_str("nene"), String::from_str("15_nene")));
    v.push((String::from_str("rui"), String::from_str("16_rui")));
    v.push((String::from_str("kanade"), String::from_str("17_kanade")));
    v.push((String::from_str("mafuyu"), String::from_str("18_mafuyu")));
    v.push((String::from_str("ena"), String::from_str("19_ena")));
    v.push((String::from_str("mizuki"), String::from_str("20_mizuki")));
    v.push((String::from_str("miku"), String::from_str("21_miku")));
    v.push((String::from_str("rin"), String::from_str("22_rin")));
    v.push((String::from_str("len"), String::from_str("23_len")));
    v.push((String::from_str("luka"), String::from_str("24_luka")));
    v.push((String::from_str("meiko"), String::from_str("25_meiko")));
    v.push((String::from_str("kaito"), String::from_str("26_kaito")));
    v
}

/// The lowercase form of a character sequence, as `str::to_lowercase`
/// computes it.  The result depends on the characters alone, so it is given
/// a name rather than a definition.
pub uninterp spec fn lower_of(s: Seq<char>) -> Seq<char>;

/// Relies on `str::to_lowercase`: the Unicode lowercase form of the input,
/// a function of the characters alone; an empty string stays empty.
#[verifier::external_body]
pub(crate) fn to_lowercase(s: &str) -> (r: String)
    ensures
        r@ == lower_of(s@),
        s@.len() == 0 ==> r@.len() == 0,
{
    s.to_lowercase()
}

/// The uppercase expansion of one character, as `char::to_uppercase`
/// computes it (possibly several characters long).
pub uninterp spec fn upper_char(c: char) -> Seq<char>;

/// Relies on `char::to_uppercase`: the Unicode uppercase expansion of the
/// character, a function of the character alone.
#[verifier::external_body]
fn uppercase_char(c: char) -> (r: String)
    ensures
        r@ == upper_char(c),
{
    c.to_uppercase().collect()
}

/// The capitalized form of a sequence: the uppercase expansion of its first
/// character followed by the rest, or the empty sequence.
pub open spec fn spec_capitalized(s: Seq<char>) -> Seq<char> {
    if s.len() == 0 {
        Seq::empty()
    } else {
        upper_char(s[0]) + s.skip(1)
    }
}

/// Capitalizes the first character of a string, leaving the rest unchanged.
pub fn capitalize(s: &str) -> (r: String)
    ensures
        r@ == spec_capitalized(s@),
{
    let len = s.unicode_len();
    if len == 0 {
        let r = String::new();
        proof {
            assert(r@ =~= spec_capitalized(s@));
        }
        r
    } else {
        let first = s.get_char(0);
        let mut r = uppercase_char(first);
        proof {
            assert(r@ =~= upper_char(s@[0]) + s@.subrange(1, 1));
        }
        let mut i: usize = 1;
        while i < len
            invariant
                1 <= i <= len,
                len == s@.len(),
                r@ == upper_char(s@[0]) + s@.subrange(1, i as int),
            decreases len - i,
        {
            push_char(&mut r, s.get_char(i));
            proof {
                assert(r@ =~= upper_char(s@[0]) + s@.subrange(1, i as int + 1));
            }
            i += 1;
        }
        proof {
            assert(upper_char(s@[0]) + s@.subrange(1, len as int) =~= spec_capitalized(s@));
        }
        r
    }
}

} // verus!
