//! Character / motion resolution: turns a scene's character, costume and
//! pose/expression indices into the engine-native identifiers, applying the
//! documented fallback and data-patch rules.

use vstd::prelude::*;
use vstd::string::*;

use crate::strutil::{
    contains_seq,
    contains_substr,
    find_char,
    rfind_char,
    spec_find,
    spec_rfind,
    str_eq,
    str_views,
};

verus! {

broadcast use vstd::string::group_string_axioms;

/// The canonical data resolved for one character in one scene.
#[derive(Debug, Clone)]
pub struct CharacterData {
    /// Canonical numeric character id.
    pub id: i32,
    /// Engine-native pose (motion) name.
    pub motion_name: String,
    /// Engine-native facial-expression name.
    pub facial_name: String,
    /// Costume (model) name the character was resolved with.
    pub costume_type: String,
}

/// Mathematical view of [`CharacterData`].
pub ghost struct CharacterDataView {
    pub id: int,
    pub motion_name: Seq<char>,
    pub facial_name: Seq<char>,
    pub costume_type: Seq<char>,
}

impl View for CharacterData {
    type V = CharacterDataView;

    open spec fn view(&self) -> CharacterDataView {
        CharacterDataView {
            id: self.id as int,
            motion_name: self.motion_name@,
            facial_name: self.facial_name@,
            costume_type: self.costume_type@,
        }
    }
}

/// The asset prefix of a costume name: with more than one underscore, the
/// part before the last underscore; with exactly one underscore, the whole
/// name when its head holds the multi-part marker `v2`, else the part before
/// the first underscore; with no underscore, the name itself.
pub open spec fn spec_asset_prefix(s: Seq<char>) -> Seq<char> {
    match spec_rfind(s, '_') {
        None => s,
        Some(pos) => {
            let before = s.take(pos);
            if spec_find(before, '_') is Some {
                before
            } else if contains_seq(before, "v2"@) {
                s
            } else {
                match spec_find(s, '_') {
                    Some(first) => s.take(first),
                    None => s,
                }
            }
        },
    }
}

/// Derives the asset prefix of a costume name, used as the key into the
/// character table.
pub fn asset_prefix(model_name: &str) -> (r: String)
    ensures
        r@ == spec_asset_prefix(model_name@),
{
    match rfind_char(model_name, '_') {
        None => String::from_str(model_name),
        Some(pos) => {
            proof {
                crate::strutil::lemma_rfind(model_name@, '_');
            }
            let before = model_name.substring_char(0, pos);
            proof {
                assert(before@ == model_name@.take(pos as int));
            }
            if find_char(before, '_').is_some() {
                String::from_str(before)
            } else if contains_substr(before, "v2") {
                String::from_str(model_name)
            } else {
                match find_char(model_name, '_') {
                    Some(first) => {
                        proof {
                            crate::strutil::lemma_find(model_name@, '_');
                        }
                        String::from_str(model_name.substring_char(0, first))
                    },
                    None => String::from_str(model_name),
                }
            }
        },
    }
}

/// The index of the first list entry equal to `key`, if any.
pub open spec fn spec_find_entry(ms: Seq<Seq<char>>, key: Seq<char>) -> Option<int>
    decreases ms.len(),
{
    if ms.len() == 0 {
        None
    } else if ms[0] == key {
        Some(0)
    } else {
        match spec_find_entry(ms.skip(1), key) {
            Some(i) => Some(i + 1),
            None => None,
        }
    }
}

/// Characterization of [`spec_find_entry`]: it names the first occurrence.
pub proof fn lemma_find_entry(ms: Seq<Seq<char>>, key: Seq<char>)
    ensures
        match spec_find_entry(ms, key) {
            Some(i) => 0 <= i < ms.len() && ms[i] == key && forall|j: int|
                0 <= j < i ==> ms[j] != key,
            None => forall|j: int| 0 <= j < ms.len() ==> ms[j] != key,
        },
    decreases ms.len(),
{
    if ms.len() > 0 && ms[0] != key {
        lemma_find_entry(ms.skip(1), key);
        assert(forall|j: int| 0 <= j < ms.len() - 1 ==> #[trigger] ms.skip(1)[j] == ms[j + 1]);
        match spec_find_entry(ms.skip(1), key) {
            Some(i) => {
                assert(ms.skip(1)[i] == key);
                assert forall|j: int| 0 <= j < i + 1 implies ms[j] != key by {
                    if j >= 1 {
                        assert(ms.skip(1)[j - 1] != key);
                    }
                }
            },
            None => {
                assert forall|j: int| 0 <= j < ms.len() implies ms[j] != key by {
                    if j >= 1 {
                        assert(ms.skip(1)[j - 1] != key);
                    }
                }
            },
        }
    }
}

/// The index of the first list entry that holds the token `face_`, if any.
pub open spec fn spec_find_face(ms: Seq<Seq<char>>) -> Option<int>
    decreases ms.len(),
{
    if ms.len() == 0 {
        None
    } else if contains_seq(ms[0], "face_"@) {
        Some(0)
    } else {
        match spec_find_face(ms.skip(1)) {
            Some(i) => Some(i + 1),
            None => None,
        }
    }
}

/// Characterization of [`spec_find_face`]: it names the first entry with
/// the `face_` token.
pub proof fn lemma_find_face(ms: Seq<Seq<char>>)
    ensures
        match spec_find_face(ms) {
            Some(i) => 0 <= i < ms.len() && contains_seq(ms[i], "face_"@) && forall|j: int|
                0 <= j < i ==> !contains_seq(ms[j], "face_"@),
            None => forall|j: int| 0 <= j < ms.len() ==> !contains_seq(ms[j], "face_"@),
        },
    decreases ms.len(),
{
    if ms.len() > 0 && !contains_seq(ms[0], "face_"@) {
        lemma_find_face(ms.skip(1));
        assert(forall|j: int| 0 <= j < ms.len() - 1 ==> #[trigger] ms.skip(1)[j] == ms[j + 1]);
        match spec_find_face(ms.skip(1)) {
            Some(i) => {
                assert(contains_seq(ms.skip(1)[i], "face_"@));
                assert forall|j: int| 0 <= j < i + 1 implies !contains_seq(ms[j], "face_"@) by {
                    if j >= 1 {
                        assert(!contains_seq(ms.skip(1)[j - 1], "face_"@));
                    }
                }
            },
            None => {
                assert forall|j: int| 0 <= j < ms.len() implies !contains_seq(
                    ms[j],
                    "face_"@,
                ) by {
                    if j >= 1 {
                        assert(!contains_seq(ms.skip(1)[j - 1], "face_"@));
                    }
                }
            },
        }
    }
}

/// The motion list after the data-quality patch: the one documented costume
/// whose reference list is missing an entry gets the placeholder inserted
/// right after its known sibling.  All other costumes are untouched.
pub open spec fn spec_patched_motions(model_name: Seq<char>, ms: Seq<Seq<char>>) -> Seq<
    Seq<char>,
> {
    if model_name == "v2_20mizuki_casual"@ {
        match spec_find_entry(ms, "face_sleepy_02"@) {
            Some(i) => ms.insert(i + 1, "face_sleepy_03"@),
            None => ms,
        }
    } else {
        ms
    }
}

/// Applies the data-quality patch to a motion list.
pub fn patched_motions(model_name: &str, motions: &Vec<String>) -> (r: Vec<String>)
    ensures
        str_views(r@) == spec_patched_motions(model_name@, str_views(motions@)),
{
    let mut out: Vec<String> = Vec::new();
    let mut i: usize = 0;
    while i < motions.len()
        invariant
            i <= motions@.len(),
            out@.len() == i,
            forall|j: int| 0 <= j < i ==> #[trigger] out@[j]@ == motions@[j]@,
        decreases motions@.len() - i,
    {
        out.push(motions[i].clone());
        i += 1;
    }
    proof {
        assert(str_views(out@) =~= str_views(motions@));
    }
    if str_eq(model_name, "v2_20mizuki_casual") {
        let mut pos: usize = 0;
        let mut found = false;
        let mut k: usize = 0;
        while k < out.len() && !found
            invariant
                k <= out@.len(),
                out@.len() == motions@.len(),
                str_views(out@) == str_views(motions@),
                !found ==> forall|j: int| 0 <= j < k ==> str_views(out@)[j] != "face_sleepy_02"@,
                found ==> pos <= k && pos < out@.len() && str_views(out@)[pos as int]
                    == "face_sleepy_02"@ && forall|j: int|
                    0 <= j < pos ==> str_views(out@)[j] != "face_sleepy_02"@,
            decreases out@.len() - k + (if found { 0int } else { 1int }),
        {
            if str_eq(out[k].as_str(), "face_sleepy_02") {
                pos = k;
                found = true;
            } else {
                k += 1;
            }
        }
        proof {
            lemma_find_entry(str_views(motions@), "face_sleepy_02"@);
        }
        if found {
            out.insert(pos + 1, String::from_str("face_sleepy_03"));
            proof {
                let old_views = str_views(motions@);
                assert(spec_find_entry(old_views, "face_sleepy_02"@) == Some(pos as int));
                assert(str_views(out@) =~= old_views.insert(
                    pos as int + 1,
                    "face_sleepy_03"@,
                ));
            }
        }
    }
    out
}

/// The pose name selected by an index, with the documented fallback for an
/// out-of-range index.
pub open spec fn spec_pose_name(ms: Seq<Seq<char>>, pose_index: int) -> Seq<char> {
    if 0 <= pose_index < ms.len() {
        ms[pose_index]
    } else {
        "w-adult-blushed01"@
    }
}

/// The facial-expression name selected by a 1-based index counted from the
/// first `face_` entry, with the documented fallback when the list has no
/// `face_` entry or the index lands outside the list.
pub open spec fn spec_facial_name(ms: Seq<Seq<char>>, expression_index: int) -> Seq<char> {
    match spec_find_face(ms) {
        None => "face_cry_01"@,
        Some(base) => {
            if expression_index >= 1 && base + expression_index - 1 < ms.len() {
                ms[base + expression_index - 1]
            } else {
                "face_cry_01"@
            }
        },
    }
}

/// The character data resolved from a motion list: the patched list is
/// consulted for the pose and the facial expression; the id and costume are
/// carried through.
pub open spec fn spec_resolved_character(
    character_id: int,
    model_name: Seq<char>,
    pose_index: int,
    expression_index: int,
    motions: Seq<Seq<char>>,
) -> CharacterDataView {
    let patched = spec_patched_motions(model_name, motions);
    CharacterDataView {
        id: character_id,
        motion_name: spec_pose_name(patched, pose_index),
        facial_name: spec_facial_name(patched, expression_index),
        costume_type: model_name,
    }
}

/// Resolves one character of one scene from its costume's ordered motion
/// list and the scene's pose and expression indices.
pub fn resolve_character(
    character_id: i32,
    model_name: &str,
    pose_index: i32,
    expression_index: i32,
    motions: &Vec<String>,
) -> (r: CharacterData)
    ensures
        r@ == spec_resolved_character(
            character_id as int,
            model_name@,
            pose_index as int,
            expression_index as int,
            str_views(motions@),
        ),
{
    let patched = patched_motions(model_name, motions);
    let ghost pm = spec_patched_motions(model_name@, str_views(motions@));
    let motion_name = if pose_index >= 0 && (pose_index as usize) < patched.len() {
        let m = patched[pose_index as usize].clone();
        proof {
            assert(m@ == pm[pose_index as int]);
        }
        m
    } else {
        String::from_str("w-adult-blushed01")
    };
    let mut base: usize = 0;
    let mut has_face = false;
    let mut k: usize = 0;
    while k < patched.len() && !has_face
        invariant
            k <= patched@.len(),
            str_views(patched@) == pm,
            !has_face ==> forall|j: int| 0 <= j < k ==> !contains_seq(pm[j], "face_"@),
            has_face ==> base <= k && base < pm.len() && contains_seq(pm[base as int], "face_"@)
                && forall|j: int| 0 <= j < base ==> !contains_seq(pm[j], "face_"@),
        decreases patched@.len() - k + (if has_face { 0int } else { 1int }),
    {
        if contains_substr(patched[k].as_str(), "face_") {
            base = k;
            has_face = true;
        } else {
            k += 1;
        }
    }
    proof {
        lemma_find_face(pm);
    }
    let facial_name = if !has_face {
        String::from_str("face_cry_01")
    } else {
        proof {
            assert(spec_find_face(pm) == Some(base as int));
        }
        if expression_index >= 1 {
            let offset = (expression_index - 1) as usize;
            if offset < patched.len() && base < patched.len() - offset {
                let f = patched[base + offset].clone();
                proof {
                    assert(f@ == pm[base as int + expression_index as int - 1]);
                }
                f
            } else {
                String::from_str("face_cry_01")
            }
        } else {
            String::from_str("face_cry_01")
        }
    };
    CharacterData {
        id: character_id,
        motion_name,
        facial_name,
        costume_type: String::from_str(model_name),
    }
}

/// The character data substituted when a character key is not in the
/// character-folder table: a fixed, known-good default.
pub open spec fn spec_default_character() -> CharacterDataView {
    CharacterDataView {
        id: 286,
        motion_name: "w-cute-glad01"@,
        facial_name: "face_cry_01"@,
        costume_type: "v2_09kohane_casual"@,
    }
}

/// Builds the default character data used when a character key is unknown.
pub fn default_character() -> (r: CharacterData)
    ensures
        r@ == spec_default_character(),
{
    CharacterData {
        id: 286,
        motion_name: String::from_str("w-cute-glad01"),
        facial_name: String::from_str("face_cry_01"),
        costume_type: String::from_str("v2_09kohane_casual"),
    }
}

} // verus!
