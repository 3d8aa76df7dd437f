//! The scenario compiler: a single pass over the ordered scene list that
//! emits the appearance list, the snippet timeline, the dialogue entries,
//! the character layouts and the special effects of a [`Scenario`].
//!
//! The compiler works on plain lookup inputs: the character table (asset
//! prefix to numeric id) and the per-costume motion documents (costume name
//! to ordered motion list).  Reading those tables from disk is the caller's
//! business.

use vstd::prelude::*;
use vstd::string::*;

use crate::resolver::{
    asset_prefix,
    default_character,
    resolve_character,
    spec_asset_prefix,
    spec_default_character,
    spec_resolved_character,
    CharacterData,
    CharacterDataView,
};
use crate::scenario::{
    default_talk_view,
    AppearView,
    CustomStory,
    CustomStoryScene,
    EffectView,
    LayoutView,
    MotionView,
    Scenario,
    ScenarioAppearCharacters,
    ScenarioSnippet,
    SekaiStoriesSceneModels,
    TalkView,
};
use crate::strutil::{str_eq, str_views};
use crate::tables::{is_known_character, lower_of, spec_capitalized};

verus! {

broadcast use vstd::string::group_string_axioms;

/// Errors that abort a compilation.
#[derive(Debug, Clone, Copy, PartialEq, Eq, Structural)]
pub enum CompileError {
    /// A model directive names an origin other than the first-party one.
    UnsupportedOrigin,
    /// A costume's asset prefix is missing from the character table.
    UnknownCharacter,
    /// A known character's costume has no motion-reference document.
    MissingMotionDocument,
    /// A scene was reached before any model directive was processed, so no
    /// speaker can ever be attributed.
    NoResolvableCharacters,
}

/// The numeric id stored for the first table key equal to `key`, if any.
pub open spec fn spec_lookup_id(table: Seq<(String, i32)>, key: Seq<char>) -> Option<int>
    decreases table.len(),
{
    if table.len() == 0 {
        None
    } else if table[0].0@ == key {
        Some(table[0].1 as int)
    } else {
        spec_lookup_id(table.skip(1), key)
    }
}

/// The motion list stored for the first document key equal to `key`, if any.
pub open spec fn spec_lookup_doc(docs: Seq<(String, Vec<String>)>, key: Seq<char>) -> Option<
    Seq<Seq<char>>,
>
    decreases docs.len(),
{
    if docs.len() == 0 {
        None
    } else if docs[0].0@ == key {
        Some(str_views(docs[0].1@))
    } else {
        spec_lookup_doc(docs.skip(1), key)
    }
}

/// The error one model directive raises, if any: a non-first-party origin,
/// an asset prefix absent from the character table, or a known character
/// whose costume has no motion document.
pub open spec fn spec_model_error(
    m: SekaiStoriesSceneModels,
    char_table: Seq<(String, i32)>,
    motion_docs: Seq<(String, Vec<String>)>,
) -> Option<CompileError> {
    if m.from@ != "sekai"@ {
        Some(CompileError::UnsupportedOrigin)
    } else if spec_lookup_id(char_table, spec_asset_prefix(m.model_name@)) is None {
        Some(CompileError::UnknownCharacter)
    } else if is_known_character(m.character@) && spec_lookup_doc(motion_docs, m.model_name@)
        is None {
        Some(CompileError::MissingMotionDocument)
    } else {
        None
    }
}

/// The canonical numeric id of a model directive's costume.
pub open spec fn spec_model_id(
    m: SekaiStoriesSceneModels,
    char_table: Seq<(String, i32)>,
) -> int {
    spec_lookup_id(char_table, spec_asset_prefix(m.model_name@))->0
}

/// The character data one model directive resolves to: for a known
/// character key, the motion document drives the pose and expression; for
/// an unknown key, the fixed default data.
pub open spec fn spec_model_data(
    m: SekaiStoriesSceneModels,
    char_table: Seq<(String, i32)>,
    motion_docs: Seq<(String, Vec<String>)>,
) -> CharacterDataView {
    if is_known_character(m.character@) {
        spec_resolved_character(
            spec_model_id(m, char_table),
            m.model_name@,
            m.model_pose as int,
            m.model_expression as int,
            spec_lookup_doc(motion_docs, m.model_name@)->0,
        )
    } else {
        spec_default_character()
    }
}

/// The first error among a scene's model directives, in order.
pub open spec fn spec_models_error(
    models: Seq<SekaiStoriesSceneModels>,
    char_table: Seq<(String, i32)>,
    motion_docs: Seq<(String, Vec<String>)>,
) -> Option<CompileError>
    decreases models.len(),
{
    if models.len() == 0 {
        None
    } else if spec_model_error(models[0], char_table, motion_docs) is Some {
        spec_model_error(models[0], char_table, motion_docs)
    } else {
        spec_models_error(models.skip(1), char_table, motion_docs)
    }
}

/// The first error of the whole scene list, processed in order.
/// `have_models` says whether any model directive was processed before the
/// remaining scenes; a scene whose dialogue step is reached while no model
/// was ever processed raises `NoResolvableCharacters`.
pub open spec fn spec_first_error(
    scenes: Seq<CustomStoryScene>,
    char_table: Seq<(String, i32)>,
    motion_docs: Seq<(String, Vec<String>)>,
    have_models: bool,
) -> Option<CompileError>
    decreases scenes.len(),
{
    if scenes.len() == 0 {
        None
    } else {
        let models = scenes[0].data.models@;
        match spec_models_error(models, char_table, motion_docs) {
            Some(e) => Some(e),
            None => {
                if !have_models && models.len() == 0 {
                    Some(CompileError::NoResolvableCharacters)
                } else {
                    spec_first_error(
                        scenes.skip(1),
                        char_table,
                        motion_docs,
                        have_models || models.len() > 0,
                    )
                }
            },
        }
    }
}

/// The error a compilation of `payload` raises, if any.
pub open spec fn spec_compile_error(
    payload: CustomStory,
    char_table: Seq<(String, i32)>,
    motion_docs: Seq<(String, Vec<String>)>,
) -> Option<CompileError> {
    spec_first_error(payload.data@, char_table, motion_docs, false)
}

/// All model directives of the first `j` scenes, in processing order.
pub open spec fn scene_models_upto(scenes: Seq<CustomStoryScene>, j: int) -> Seq<
    SekaiStoriesSceneModels,
>
    decreases j,
{
    if j <= 0 {
        Seq::empty()
    } else {
        scene_models_upto(scenes, j - 1) + scenes[j - 1].data.models@
    }
}

/// The index of the last processed model whose character key equals `key`,
/// if any: the resolution cache is last-writer-wins.
pub open spec fn spec_speaker_idx(models: Seq<SekaiStoriesSceneModels>, key: Seq<char>) -> Option<
    int,
>
    decreases models.len(),
{
    if models.len() == 0 {
        None
    } else if models[models.len() - 1].character@ == key {
        Some(models.len() - 1)
    } else {
        spec_speaker_idx(models.drop_last(), key)
    }
}

/// Characterization of [`spec_speaker_idx`]: it names the last occurrence.
pub proof fn lemma_speaker_idx(models: Seq<SekaiStoriesSceneModels>, key: Seq<char>)
    ensures
        match spec_speaker_idx(models, key) {
            Some(i) => 0 <= i < models.len() && models[i].character@ == key && forall|j: int|
                i < j < models.len() ==> models[j].character@ != key,
            None => forall|j: int| 0 <= j < models.len() ==> models[j].character@ != key,
        },
    decreases models.len(),
{
    if models.len() > 0 && models[models.len() - 1].character@ != key {
        lemma_speaker_idx(models.drop_last(), key);
        assert(forall|j: int|
            0 <= j < models.len() - 1 ==> #[trigger] models.drop_last()[j] == models[j]);
        match spec_speaker_idx(models.drop_last(), key) {
            Some(i) => {
                assert(models.drop_last()[i] == models[i]);
                assert forall|j: int| i < j < models.len() implies models[j].character@ != key by {
                    if j < models.len() - 1 {
                        assert(models.drop_last()[j].character@ != key);
                    }
                }
            },
            None => {
                assert forall|j: int| 0 <= j < models.len() implies models[j].character@
                    != key by {
                    if j < models.len() - 1 {
                        assert(models.drop_last()[j].character@ != key);
                    }
                }
            },
        }
    }
}

/// The lowercased speaker tag of scene `j`.
pub open spec fn spec_speaker_key(scenes: Seq<CustomStoryScene>, j: int) -> Seq<char> {
    lower_of(scenes[j].data.text.name_tag@)
}

/// The dialogue entry emitted for scene `j` of `n`: the resolved speaker's
/// entry, or the fixed default when the speaker matches no processed model.
pub open spec fn spec_scene_talk(
    scenes: Seq<CustomStoryScene>,
    j: int,
    char_table: Seq<(String, i32)>,
    motion_docs: Seq<(String, Vec<String>)>,
) -> TalkView {
    let key = spec_speaker_key(scenes, j);
    let models = scene_models_upto(scenes, j + 1);
    match spec_speaker_idx(models, key) {
        None => default_talk_view(),
        Some(i) => {
            let data = spec_model_data(models[i], char_table, motion_docs);
            TalkView {
                talk_characters: seq![data.id],
                window_display_name: spec_capitalized(key),
                body: scenes[j].data.text.dialogue@,
                talk_tention: 0,
                lip_sync: 1,
                motion_change_from: 1,
                motions: if j == 0 {
                    Seq::empty()
                } else {
                    seq![
                        MotionView {
                            character2d_id: data.id,
                            motion_name: data.motion_name,
                            facial_name: data.facial_name,
                            timing_sync_value_milli: 0,
                        },
                    ]
                },
                voices: Seq::empty(),
                speed_milli: 0,
                font_size: 0,
                when_finish_close_window: if j == scenes.len() - 1 {
                    1
                } else {
                    0
                },
                require_play_effect: 0,
                effect_reference_idx: 0,
                require_play_sound: 0,
                sound_reference_idx: 0,
                target_value_scale_milli: 0,
            }
        },
    }
}

/// The dialogue entries of the first `j` scenes.
pub open spec fn spec_talks(
    scenes: Seq<CustomStoryScene>,
    char_table: Seq<(String, i32)>,
    motion_docs: Seq<(String, Vec<String>)>,
    j: int,
) -> Seq<TalkView>
    decreases j,
{
    if j <= 0 {
        Seq::empty()
    } else {
        spec_talks(scenes, char_table, motion_docs, j - 1).push(
            spec_scene_talk(scenes, j - 1, char_table, motion_docs),
        )
    }
}

/// The character layout emitted for a resolved scene `j`.
pub open spec fn spec_scene_layout(j: int, data: CharacterDataView) -> LayoutView {
    LayoutView {
        layout_type: if j == 0 {
            2
        } else {
            0
        },
        side_from: if j == 0 {
            4
        } else {
            3
        },
        side_from_offset_x_milli: 0,
        side_to: if j == 0 {
            4
        } else {
            3
        },
        side_to_offset_x_milli: 0,
        depth_type: 0,
        character2d_id: data.id,
        costume_type: if j == 0 {
            data.costume_type
        } else {
            Seq::empty()
        },
        motion_name: data.motion_name,
        facial_name: data.facial_name,
        move_speed_type: 0,
    }
}

/// The terminal layout entry that closes the layout timeline: the terminal
/// marker type with all name fields blank.
pub open spec fn spec_terminal_layout(id: int) -> LayoutView {
    LayoutView {
        layout_type: 3,
        side_from: 4,
        side_from_offset_x_milli: 0,
        side_to: 4,
        side_to_offset_x_milli: 0,
        depth_type: 0,
        character2d_id: id,
        costume_type: Seq::empty(),
        motion_name: Seq::empty(),
        facial_name: Seq::empty(),
        move_speed_type: 0,
    }
}

/// The layout entries of the first `j` scenes: one per resolved scene, and
/// after the final scene, when it resolves, the terminal entry.
pub open spec fn spec_layouts(
    scenes: Seq<CustomStoryScene>,
    char_table: Seq<(String, i32)>,
    motion_docs: Seq<(String, Vec<String>)>,
    j: int,
) -> Seq<LayoutView>
    decreases j,
{
    if j <= 0 {
        Seq::empty()
    } else {
        let prev = spec_layouts(scenes, char_table, motion_docs, j - 1);
        let key = spec_speaker_key(scenes, j - 1);
        let models = scene_models_upto(scenes, j);
        match spec_speaker_idx(models, key) {
            None => prev,
            Some(i) => {
                let data = spec_model_data(models[i], char_table, motion_docs);
                let with_scene = prev.push(spec_scene_layout(j - 1, data));
                if j == scenes.len() {
                    with_scene.push(spec_terminal_layout(data.id))
                } else {
                    with_scene
                }
            },
        }
    }
}

/// The fixed snippet preamble: the two display-text effects, the
/// effect-clearing step, and the character appearance.
pub open spec fn spec_preamble_snippets() -> Seq<ScenarioSnippet> {
    seq![
        ScenarioSnippet {
            index: 0,
            action: 6,
            progress_behavior: 1,
            reference_index: 0,
            delay_milli: 0,
        },
        ScenarioSnippet {
            index: 1,
            action: 6,
            progress_behavior: 1,
            reference_index: 1,
            delay_milli: 0,
        },
        ScenarioSnippet {
            index: 2,
            action: 7,
            progress_behavior: 1,
            reference_index: 0,
            delay_milli: 0,
        },
        ScenarioSnippet {
            index: 3,
            action: 2,
            progress_behavior: 1,
            reference_index: 0,
            delay_milli: 2000,
        },
    ]
}

/// The snippet timeline after the first `j` scenes: the preamble followed
/// by one dialogue snippet per resolved scene, each referencing its scene's
/// position and carrying the next timeline index.
pub open spec fn spec_snippets(scenes: Seq<CustomStoryScene>, j: int) -> Seq<ScenarioSnippet>
    decreases j,
{
    if j <= 0 {
        spec_preamble_snippets()
    } else {
        let prev = spec_snippets(scenes, j - 1);
        let key = spec_speaker_key(scenes, j - 1);
        match spec_speaker_idx(scene_models_upto(scenes, j), key) {
            None => prev,
            Some(_) => prev.push(
                ScenarioSnippet {
                    index: prev.len() as i32,
                    action: 1,
                    progress_behavior: 1,
                    reference_index: (j - 1) as i32,
                    delay_milli: 2000,
                },
            ),
        }
    }
}

/// Whether the appearance list already holds the given id/costume pair.
pub open spec fn spec_appear_contains(s: Seq<AppearView>, id: int, costume: Seq<char>) -> bool {
    exists|i: int|
        0 <= i < s.len() && (#[trigger] s[i]).character2d_id == id && s[i].costume_type == costume
}

/// Adds an id/costume pair to the appearance list unless it is present.
pub open spec fn spec_push_appear(s: Seq<AppearView>, id: int, costume: Seq<char>) -> Seq<
    AppearView,
> {
    if spec_appear_contains(s, id, costume) {
        s
    } else {
        s.push(AppearView { character2d_id: id, costume_type: costume })
    }
}

/// The appearance list after the first `k` models of `models`, starting
/// from `s`.
pub open spec fn spec_appears_models(
    s: Seq<AppearView>,
    models: Seq<SekaiStoriesSceneModels>,
    char_table: Seq<(String, i32)>,
    k: int,
) -> Seq<AppearView>
    decreases k,
{
    if k <= 0 {
        s
    } else {
        let prev = spec_appears_models(s, models, char_table, k - 1);
        spec_push_appear(prev, spec_model_id(models[k - 1], char_table), models[k - 1].model_name@)
    }
}

/// The appearance list after the first `j` scenes.
pub open spec fn spec_appears(
    scenes: Seq<CustomStoryScene>,
    char_table: Seq<(String, i32)>,
    j: int,
) -> Seq<AppearView>
    decreases j,
{
    if j <= 0 {
        Seq::empty()
    } else {
        spec_appears_models(
            spec_appears(scenes, char_table, j - 1),
            scenes[j - 1].data.models@,
            char_table,
            scenes[j - 1].data.models@.len() as int,
        )
    }
}

/// No two entries of the appearance list share both id and costume.
pub open spec fn appears_unique(s: Seq<AppearView>) -> bool {
    forall|i: int, k: int|
        0 <= i < k < s.len() ==> !((#[trigger] s[i]).character2d_id == (
        #[trigger] s[k]).character2d_id && s[i].costume_type == s[k].costume_type)
}

/// Adding a pair through [`spec_push_appear`] keeps the list free of
/// duplicate pairs.
pub proof fn lemma_push_appear_unique(s: Seq<AppearView>, id: int, costume: Seq<char>)
    requires
        appears_unique(s),
    ensures
        appears_unique(spec_push_appear(s, id, costume)),
{
    if !spec_appear_contains(s, id, costume) {
        let t = s.push(AppearView { character2d_id: id, costume_type: costume });
        assert forall|i: int, k: int| 0 <= i < k < t.len() implies !((#[trigger] t[i]).character2d_id
            == (#[trigger] t[k]).character2d_id && t[i].costume_type == t[k].costume_type) by {
            if k == s.len() as int {
                assert(t[i] == s[i]);
                if t[i].character2d_id == id && t[i].costume_type == costume {
                    assert(spec_appear_contains(s, id, costume));
                }
            } else {
                assert(t[i] == s[i] && t[k] == s[k]);
            }
        }
    }
}

/// The per-model appearance builder keeps the list free of duplicate pairs.
pub proof fn lemma_appears_models_unique(
    s: Seq<AppearView>,
    models: Seq<SekaiStoriesSceneModels>,
    char_table: Seq<(String, i32)>,
    k: int,
)
    requires
        appears_unique(s),
    ensures
        appears_unique(spec_appears_models(s, models, char_table, k)),
    decreases k,
{
    if k > 0 {
        lemma_appears_models_unique(s, models, char_table, k - 1);
        lemma_push_appear_unique(
            spec_appears_models(s, models, char_table, k - 1),
            spec_model_id(models[k - 1], char_table),
            models[k - 1].model_name@,
        );
    }
}

/// The appearance list of any compiled prefix holds no duplicate pairs.
pub proof fn lemma_appears_unique(
    scenes: Seq<CustomStoryScene>,
    char_table: Seq<(String, i32)>,
    j: int,
)
    ensures
        appears_unique(spec_appears(scenes, char_table, j)),
    decreases j,
{
    if j <= 0 {
        assert(appears_unique(Seq::<AppearView>::empty()));
    } else {
        lemma_appears_unique(scenes, char_table, j - 1);
        lemma_appears_models_unique(
            spec_appears(scenes, char_table, j - 1),
            scenes[j - 1].data.models@,
            char_table,
            scenes[j - 1].data.models@.len() as int,
        );
    }
}

/// The three fixed special effects of a compiled record: the tool credit,
/// the mod name, and the effect-clearing step.
pub open spec fn spec_effects(mod_name: Seq<char>) -> Seq<EffectView> {
    seq![
        EffectView {
            effect_type: 8,
            string_val: "Created with MikuMikuLoader"@,
            string_val_sub: Seq::empty(),
            duration_milli: 0,
            int_val: 0,
        },
        EffectView {
            effect_type: 8,
            string_val: mod_name,
            string_val_sub: Seq::empty(),
            duration_milli: 0,
            int_val: 0,
        },
        EffectView {
            effect_type: 4,
            string_val: Seq::empty(),
            string_val_sub: Seq::empty(),
            duration_milli: 1000,
            int_val: 0,
        },
    ]
}

/// Looks up a key in the character table, from position `k` on.
fn lookup_id_from(table: &Vec<(String, i32)>, k: usize, key: &str) -> (r: Option<i32>)
    requires
        k <= table@.len(),
    ensures
        match r {
            Some(v) => spec_lookup_id(table@.skip(k as int), key@) == Some(v as int),
            None => spec_lookup_id(table@.skip(k as int), key@) is None,
        },
    decreases table@.len() - k,
{
    if k == table.len() {
        proof {
            assert(table@.skip(k as int) =~= Seq::<(String, i32)>::empty());
        }
        None
    } else {
        proof {
            assert(table@.skip(k as int)[0] == table@[k as int]);
            assert(table@.skip(k as int).skip(1) =~= table@.skip(k as int + 1));
        }
        if str_eq(table[k].0.as_str(), key) {
            Some(table[k].1)
        } else {
            lookup_id_from(table, k + 1, key)
        }
    }
}

/// Looks up a costume's asset prefix in the character table.
pub fn lookup_id(table: &Vec<(String, i32)>, key: &str) -> (r: Option<i32>)
    ensures
        match r {
            Some(v) => spec_lookup_id(table@, key@) == Some(v as int),
            None => spec_lookup_id(table@, key@) is None,
        },
{
    proof {
        assert(table@.skip(0) =~= table@);
    }
    lookup_id_from(table, 0, key)
}

/// Looks up a costume name among the motion documents, from `k` on.
fn lookup_doc_from<'a>(docs: &'a Vec<(String, Vec<String>)>, k: usize, key: &str) -> (r: Option<
    &'a Vec<String>,
>)
    requires
        k <= docs@.len(),
    ensures
        match r {
            Some(d) => spec_lookup_doc(docs@.skip(k as int), key@) == Some(str_views(d@)),
            None => spec_lookup_doc(docs@.skip(k as int), key@) is None,
        },
    decreases docs@.len() - k,
{
    if k == docs.len() {
        proof {
            assert(docs@.skip(k as int) =~= Seq::<(String, Vec<String>)>::empty());
        }
        None
    } else {
        proof {
            assert(docs@.skip(k as int)[0] == docs@[k as int]);
            assert(docs@.skip(k as int).skip(1) =~= docs@.skip(k as int + 1));
        }
        if str_eq(docs[k].0.as_str(), key) {
            Some(&docs[k].1)
        } else {
            lookup_doc_from(docs, k + 1, key)
        }
    }
}

/// Looks up a costume name among the motion documents.
pub fn lookup_doc<'a>(docs: &'a Vec<(String, Vec<String>)>, key: &str) -> (r: Option<
    &'a Vec<String>,
>)
    ensures
        match r {
            Some(d) => spec_lookup_doc(docs@, key@) == Some(str_views(d@)),
            None => spec_lookup_doc(docs@, key@) is None,
        },
{
    proof {
        assert(docs@.skip(0) =~= docs@);
    }
    lookup_doc_from(docs, 0, key)
}

/// Computes the error one model directive raises, if any.
fn model_error(
    m: &SekaiStoriesSceneModels,
    char_table: &Vec<(String, i32)>,
    motion_docs: &Vec<(String, Vec<String>)>,
) -> (r: Option<CompileError>)
    ensures
        r == spec_model_error(*m, char_table@, motion_docs@),
{
    if !str_eq(m.from.as_str(), "sekai") {
        return Some(CompileError::UnsupportedOrigin);
    }
    let prefix = asset_prefix(m.model_name.as_str());
    if lookup_id(char_table, prefix.as_str()).is_none() {
        return Some(CompileError::UnknownCharacter);
    }
    if crate::tables::known_character(m.character.as_str()) && lookup_doc(
        motion_docs,
        m.model_name.as_str(),
    ).is_none() {
        return Some(CompileError::MissingMotionDocument);
    }
    None
}

/// Checks a scene's models, from position `k` on, for the first error.
fn validate_models(
    models: &Vec<SekaiStoriesSceneModels>,
    k: usize,
    char_table: &Vec<(String, i32)>,
    motion_docs: &Vec<(String, Vec<String>)>,
) -> (r: Option<CompileError>)
    requires
        k <= models@.len(),
    ensures
        r == spec_models_error(models@.skip(k as int), char_table@, motion_docs@),
    decreases models@.len() - k,
{
    if k == models.len() {
        proof {
            assert(models@.skip(k as int) =~= Seq::<SekaiStoriesSceneModels>::empty());
        }
        None
    } else {
        proof {
            assert(models@.skip(k as int)[0] == models@[k as int]);
            assert(models@.skip(k as int).skip(1) =~= models@.skip(k as int + 1));
        }
        match model_error(&models[k], char_table, motion_docs) {
            Some(e) => Some(e),
            None => validate_models(models, k + 1, char_table, motion_docs),
        }
    }
}

/// Checks the scenes from position `j` on for the first error, given
/// whether any model was processed before them.
fn validate_scenes(
    scenes: &Vec<CustomStoryScene>,
    j: usize,
    have_models: bool,
    char_table: &Vec<(String, i32)>,
    motion_docs: &Vec<(String, Vec<String>)>,
) -> (r: Option<CompileError>)
    requires
        j <= scenes@.len(),
    ensures
        r == spec_first_error(scenes@.skip(j as int), char_table@, motion_docs@, have_models),
    decreases scenes@.len() - j,
{
    if j == scenes.len() {
        proof {
            assert(scenes@.skip(j as int) =~= Seq::<CustomStoryScene>::empty());
        }
        None
    } else {
        proof {
            assert(scenes@.skip(j as int)[0] == scenes@[j as int]);
            assert(scenes@.skip(j as int).skip(1) =~= scenes@.skip(j as int + 1));
        }
        let models = &scenes[j].data.models;
        match validate_models(models, 0, char_table, motion_docs) {
            Some(e) => {
                proof {
                    assert(models@.skip(0) =~= models@);
                }
                Some(e)
            },
            None => {
                proof {
                    assert(models@.skip(0) =~= models@);
                }
                if !have_models && models.len() == 0 {
                    Some(CompileError::NoResolvableCharacters)
                } else {
                    validate_scenes(
                        scenes,
                        j + 1,
                        have_models || models.len() > 0,
                        char_table,
                        motion_docs,
                    )
                }
            },
        }
    }
}

/// Checks a scene list against the lookup tables and reports the first
/// error a compilation of it would raise, if any.
pub fn validate_story(
    payload: &CustomStory,
    char_table: &Vec<(String, i32)>,
    motion_docs: &Vec<(String, Vec<String>)>,
) -> (r: Option<CompileError>)
    ensures
        r == spec_compile_error(*payload, char_table@, motion_docs@),
{
    proof {
        assert(payload.data@.skip(0) =~= payload.data@);
    }
    validate_scenes(&payload.data, 0, false, char_table, motion_docs)
}

/// Decides whether the appearance list already holds the id/costume pair.
fn appear_contains(v: &Vec<ScenarioAppearCharacters>, id: i32, costume: &str) -> (r: bool)
    ensures
        r == spec_appear_contains(
            v@.map_values(|a: ScenarioAppearCharacters| a@),
            id as int,
            costume@,
        ),
{
    let ghost s = v@.map_values(|a: ScenarioAppearCharacters| a@);
    let mut i: usize = 0;
    while i < v.len()
        invariant
            i <= v@.len(),
            s == v@.map_values(|a: ScenarioAppearCharacters| a@),
            s.len() == v@.len(),
            forall|j: int|
                0 <= j < i ==> !((#[trigger] s[j]).character2d_id == id as int
                    && s[j].costume_type == costume@),
        decreases v@.len() - i,
    {
        if v[i].character2d_id == id && str_eq(v[i].costume_type.as_str(), costume) {
            proof {
                assert(s[i as int].character2d_id == id as int && s[i as int].costume_type
                    == costume@);
            }
            return true;
        }
        i += 1;
    }
    false
}

impl Scenario {
    /// Compiles an ordered scene list into this record.
    ///
    /// The record's appearance, snippet, talk, layout, effect and bundle
    /// lists must start empty, as in the stripped template the compiler
    /// writes into.  On success they hold exactly the compiled data: the
    /// fixed effect and snippet preamble, one talk entry per scene, one
    /// layout and one dialogue snippet per scene whose speaker resolves,
    /// and the terminal layout entry after a resolving final scene.  The
    /// first scene's background becomes the record's first background and
    /// its bundle reference.  On an ill-formed scene list the first error,
    /// in processing order, is returned and the record is untouched.
    pub fn generate_story_assetbundle(
        &mut self,
        payload: &CustomStory,
        char_table: &Vec<(String, i32)>,
        motion_docs: &Vec<(String, Vec<String>)>,
    ) -> (r: Result<(), CompileError>)
        requires
            old(self).appear_characters@.len() == 0,
            old(self).snippets@.len() == 0,
            old(self).talk_data@.len() == 0,
            old(self).layout_data@.len() == 0,
            old(self).special_effect_data@.len() == 0,
            old(self).need_bundle_names@.len() == 0,
            payload.data@.len() >= 1,
            payload.data@.len() <= 1000000,
        ensures
            r is Err <==> spec_compile_error(*payload, char_table@, motion_docs@) is Some,
            r is Err ==> r->Err_0 == spec_compile_error(*payload, char_table@, motion_docs@)->0
                && *final(self) == *old(self),
            r is Ok ==> final(self).first_background@ == crate::strutil::spec_file_stem(
                payload.data@[0].data.background@,
            ),
            r is Ok ==> final(self).need_bundle_names@.len() == 1 && final(self).need_bundle_names@[0]@ == "scenario/background/"@ + crate::strutil::spec_file_stem(
                payload.data@[0].data.background@,
            ),
            r is Ok ==> final(self).special_effect_data@.map_values(
                |e: crate::scenario::ScenarioSpecialEffect| e@,
            ) == spec_effects(payload.modpack_name@),
            r is Ok ==> final(self).snippets@ == spec_snippets(
                payload.data@,
                payload.data@.len() as int,
            ),
            r is Ok ==> final(self).talk_data@.map_values(
                |t: crate::scenario::ScenarioTalkData| t@,
            ) == spec_talks(payload.data@, char_table@, motion_docs@, payload.data@.len() as int),
            r is Ok ==> final(self).layout_data@.map_values(
                |l: crate::scenario::ScenarioCharacterLayout| l@,
            ) == spec_layouts(
                payload.data@,
                char_table@,
                motion_docs@,
                payload.data@.len() as int,
            ),
            r is Ok ==> final(self).appear_characters@.map_values(
                |a: ScenarioAppearCharacters| a@,
            ) == spec_appears(payload.data@, char_table@, payload.data@.len() as int),
            // The snippet timeline indices are contiguous from zero.
            r is Ok ==> forall|i: int|
                0 <= i < final(self).snippets@.len() ==> (#[trigger] final(self).snippets@[i]).index as int == i,
            // No two appearance entries share both id and costume.
            r is Ok ==> appears_unique(
                final(self).appear_characters@.map_values(|a: ScenarioAppearCharacters| a@),
            ),
            // A resolving final scene closes the layout timeline with the
            // terminal entry, its name fields blank.
            r is Ok && spec_speaker_idx(
                scene_models_upto(payload.data@, payload.data@.len() as int),
                spec_speaker_key(payload.data@, payload.data@.len() - 1),
            ) is Some ==> final(self).layout_data@.len() > 0 && {
                let last = final(self).layout_data@.last()@;
                last.layout_type == 3 && last.costume_type == Seq::<char>::empty()
                    && last.motion_name == Seq::<char>::empty() && last.facial_name == Seq::<
                    char,
                >::empty()
            },
            // Fields the compiler does not produce are untouched.
            r is Ok ==> final(self).name == old(self).name && final(self).scenario_id == old(self).scenario_id && final(self).first_bgm == old(self).first_bgm && final(self).sound_data == old(self).sound_data && final(self).first_character_layout_mode == old(self).first_character_layout_mode,
    {
        let ghost scenes = payload.data@;
        let ghost ct = char_table@;
        let ghost md = motion_docs@;
        let ghost n = payload.data@.len() as int;
        if let Some(e) = validate_story(payload, char_table, motion_docs) {
            return Err(e);
        }
        // First background and its bundle reference.
        let stem = crate::strutil::file_stem(payload.data[0].data.background.as_str());
        self.first_background = stem.clone();
        let mut bundle_name = String::from_str("scenario/background/");
        bundle_name.append(stem.as_str());
        self.need_bundle_names.push(bundle_name);
        // The fixed special effects: tool credit, mod name, effect clear.
        self.special_effect_data.push(
            crate::scenario::ScenarioSpecialEffect {
                effect_type: 8,
                string_val: String::from_str("Created with MikuMikuLoader"),
                string_val_sub: String::new(),
                duration_milli: 0,
                int_val: 0,
            },
        );
        self.special_effect_data.push(
            crate::scenario::ScenarioSpecialEffect {
                effect_type: 8,
                string_val: payload.modpack_name.clone(),
                string_val_sub: String::new(),
                duration_milli: 0,
                int_val: 0,
            },
        );
        self.special_effect_data.push(
            crate::scenario::ScenarioSpecialEffect {
                effect_type: 4,
                string_val: String::new(),
                string_val_sub: String::new(),
                duration_milli: 1000,
                int_val: 0,
            },
        );
        proof {
            assert(self.special_effect_data@.map_values(
                |e: crate::scenario::ScenarioSpecialEffect| e@,
            ) =~= spec_effects(payload.modpack_name@));
        }
        // The snippet preamble.
        self.snippets.push(
            ScenarioSnippet {
                index: 0,
                action: 6,
                progress_behavior: 1,
                reference_index: 0,
                delay_milli: 0,
            },
        );
        self.snippets.push(
            ScenarioSnippet {
                index: 1,
                action: 6,
                progress_behavior: 1,
                reference_index: 1,
                delay_milli: 0,
            },
        );
        self.snippets.push(
            ScenarioSnippet {
                index: 2,
                action: 7,
                progress_behavior: 1,
                reference_index: 0,
                delay_milli: 0,
            },
        );
        self.snippets.push(
            ScenarioSnippet {
                index: 3,
                action: 2,
                progress_behavior: 1,
                reference_index: 0,
                delay_milli: 2000,
            },
        );
        proof {
            assert(self.snippets@ =~= spec_preamble_snippets());
        }
        // The resolution cache: one entry per processed model directive,
        // scanned from its end, so the last writer wins.
        let mut resolved: Vec<(String, CharacterData)> = Vec::new();
        let mut j: usize = 0;
        proof {
            assert(scene_models_upto(scenes, 0) =~= Seq::<SekaiStoriesSceneModels>::empty());
            assert(self.talk_data@.map_values(|t: crate::scenario::ScenarioTalkData| t@)
                =~= spec_talks(scenes, ct, md, 0));
            assert(self.layout_data@.map_values(
                |l: crate::scenario::ScenarioCharacterLayout| l@,
            ) =~= spec_layouts(scenes, ct, md, 0));
            assert(self.appear_characters@.map_values(|a: ScenarioAppearCharacters| a@)
                =~= spec_appears(scenes, ct, 0));
            assert(scenes.skip(0) =~= scenes);
        }
        while j < payload.data.len()
            invariant
                j <= n,
                n == scenes.len(),
                1 <= n <= 1000000,
                scenes == payload.data@,
                ct == char_table@,
                md == motion_docs@,
                resolved@.len() == scene_models_upto(scenes, j as int).len(),
                forall|i: int|
                    0 <= i < resolved@.len() ==> (#[trigger] resolved@[i]).0@ == scene_models_upto(
                        scenes,
                        j as int,
                    )[i].character@ && resolved@[i].1@ == spec_model_data(
                        scene_models_upto(scenes, j as int)[i],
                        ct,
                        md,
                    ),
                self.snippets@ == spec_snippets(scenes, j as int),
                self.snippets@.len() <= 4 + j,
                forall|i: int|
                    0 <= i < self.snippets@.len() ==> (#[trigger] self.snippets@[i]).index as int
                        == i,
                self.talk_data@.map_values(|t: crate::scenario::ScenarioTalkData| t@)
                    == spec_talks(scenes, ct, md, j as int),
                self.layout_data@.map_values(|l: crate::scenario::ScenarioCharacterLayout| l@)
                    == spec_layouts(scenes, ct, md, j as int),
                self.appear_characters@.map_values(|a: ScenarioAppearCharacters| a@)
                    == spec_appears(scenes, ct, j as int),
                spec_first_error(
                    scenes.skip(j as int),
                    ct,
                    md,
                    scene_models_upto(scenes, j as int).len() > 0,
                ) is None,
                self.first_background@ == crate::strutil::spec_file_stem(
                    scenes[0].data.background@,
                ),
                self.need_bundle_names@.len() == 1,
                self.need_bundle_names@[0]@ == "scenario/background/"@
                    + crate::strutil::spec_file_stem(scenes[0].data.background@),
                self.special_effect_data@.map_values(
                    |e: crate::scenario::ScenarioSpecialEffect| e@,
                ) == spec_effects(payload.modpack_name@),
                self.name == old(self).name,
                self.scenario_id == old(self).scenario_id,
                self.first_bgm == old(self).first_bgm,
                self.sound_data == old(self).sound_data,
                self.first_character_layout_mode == old(self).first_character_layout_mode,
            decreases n - j,
        {
            let ghost base_models = scene_models_upto(scenes, j as int);
            let ghost models = scenes[j as int].data.models@;
            proof {
                assert(scenes.skip(j as int)[0] == scenes[j as int]);
                assert(scenes.skip(j as int).skip(1) =~= scenes.skip(j as int + 1));
                assert(models.skip(0) =~= models);
            }
            let scene_model_count = payload.data[j].data.models.len();
            let mut k: usize = 0;
            proof {
                assert(base_models + models.take(0) =~= base_models);
            }
            while k < scene_model_count
                invariant
                    k <= models.len(),
                    scene_model_count == models.len(),
                    j < n,
                    n == scenes.len(),
                    scenes == payload.data@,
                    ct == char_table@,
                    md == motion_docs@,
                    models == scenes[j as int].data.models@,
                    base_models == scene_models_upto(scenes, j as int),
                    resolved@.len() == base_models.len() + k,
                    forall|i: int|
                        0 <= i < resolved@.len() ==> (#[trigger] resolved@[i]).0@ == (base_models
                            + models.take(k as int))[i].character@ && resolved@[i].1@
                            == spec_model_data((base_models + models.take(k as int))[i], ct, md),
                    self.appear_characters@.map_values(|a: ScenarioAppearCharacters| a@)
                        == spec_appears_models(
                        spec_appears(scenes, ct, j as int),
                        models,
                        ct,
                        k as int,
                    ),
                    spec_models_error(models.skip(k as int), ct, md) is None,
                    self.snippets@ == spec_snippets(scenes, j as int),
                    self.snippets@.len() <= 4 + j,
                    forall|i: int|
                        0 <= i < self.snippets@.len() ==> (#[trigger] self.snippets@[i]).index
                            as int == i,
                    self.talk_data@.map_values(|t: crate::scenario::ScenarioTalkData| t@)
                        == spec_talks(scenes, ct, md, j as int),
                    self.layout_data@.map_values(|l: crate::scenario::ScenarioCharacterLayout| l@)
                        == spec_layouts(scenes, ct, md, j as int),
                    spec_first_error(
                        scenes.skip(j as int),
                        ct,
                        md,
                        scene_models_upto(scenes, j as int).len() > 0,
                    ) is None,
                    self.first_background@ == crate::strutil::spec_file_stem(
                        scenes[0].data.background@,
                    ),
                    self.need_bundle_names@.len() == 1,
                    self.need_bundle_names@[0]@ == "scenario/background/"@
                        + crate::strutil::spec_file_stem(scenes[0].data.background@),
                    self.special_effect_data@.map_values(
                        |e: crate::scenario::ScenarioSpecialEffect| e@,
                    ) == spec_effects(payload.modpack_name@),
                    self.name == old(self).name,
                    self.scenario_id == old(self).scenario_id,
                    self.first_bgm == old(self).first_bgm,
                    self.sound_data == old(self).sound_data,
                    self.first_character_layout_mode == old(self).first_character_layout_mode,
                decreases models.len() - k,
            {
                proof {
                    assert(models.skip(k as int)[0] == models[k as int]);
                    assert(models.skip(k as int).skip(1) =~= models.skip(k as int + 1));
                }
                let m = &payload.data[j].data.models[k];
                let prefix = asset_prefix(m.model_name.as_str());
                let id = match lookup_id(char_table, prefix.as_str()) {
                    Some(v) => v,
                    None => {
                        proof {
                            assert(false);
                        }
                        0
                    },
                };
                proof {
                    assert(id as int == spec_model_id(models[k as int], ct));
                }
                let data = if crate::tables::known_character(m.character.as_str()) {
                    match lookup_doc(motion_docs, m.model_name.as_str()) {
                        Some(doc) => resolve_character(
                            id,
                            m.model_name.as_str(),
                            m.model_pose,
                            m.model_expression,
                            doc,
                        ),
                        None => {
                            proof {
                                assert(false);
                            }
                            default_character()
                        },
                    }
                } else {
                    default_character()
                };
                proof {
                    assert(data@ == spec_model_data(models[k as int], ct, md));
                }
                resolved.push((m.character.clone(), data));
                proof {
                    assert(base_models + models.take(k as int + 1) =~= (base_models + models.take(
                        k as int,
                    )).push(models[k as int]));
                }
                let ghost appear_before = self.appear_characters@.map_values(
                    |a: ScenarioAppearCharacters| a@,
                );
                if !appear_contains(&self.appear_characters, id, m.model_name.as_str()) {
                    self.appear_characters.push(
                        ScenarioAppearCharacters {
                            character2d_id: id,
                            costume_type: m.model_name.clone(),
                        },
                    );
                    proof {
                        assert(self.appear_characters@.map_values(
                            |a: ScenarioAppearCharacters| a@,
                        ) =~= appear_before.push(
                            AppearView {
                                character2d_id: id as int,
                                costume_type: models[k as int].model_name@,
                            },
                        ));
                    }
                }
                proof {
                    assert(self.appear_characters@.map_values(|a: ScenarioAppearCharacters| a@)
                        == spec_push_appear(
                        appear_before,
                        spec_model_id(models[k as int], ct),
                        models[k as int].model_name@,
                    ));
                }
                k += 1;
            }
            proof {
                assert(models.take(models.len() as int) =~= models);
                assert(scene_models_upto(scenes, j as int + 1) == base_models + models);
            }
            // The dialogue step: match the scene's speaker tag against the
            // resolution cache.
            let speaker = crate::tables::to_lowercase(
                payload.data[j].data.text.name_tag.as_str(),
            );
            let ghost models_now = scene_models_upto(scenes, j as int + 1);
            let ghost key = spec_speaker_key(scenes, j as int);
            proof {
                lemma_speaker_idx(models_now, key);
            }
            let ghost talks_before = self.talk_data@.map_values(
                |t: crate::scenario::ScenarioTalkData| t@,
            );
            let ghost layouts_before = self.layout_data@.map_values(
                |l: crate::scenario::ScenarioCharacterLayout| l@,
            );
            match lookup_speaker(&resolved, speaker.as_str()) {
                Some(idx) => {
                    proof {
                        assert(resolved@[idx as int].0@ == models_now[idx as int].character@);
                        match spec_speaker_idx(models_now, key) {
                            Some(si) => {
                                if si < idx {
                                    assert(models_now[idx as int].character@ != key);
                                } else if si > idx {
                                    assert(resolved@[si].0@ != key);
                                }
                            },
                            None => {
                                assert(models_now[idx as int].character@ != key);
                            },
                        }
                        assert(spec_speaker_idx(models_now, key) == Some(idx as int));
                    }
                    let data_id = resolved[idx].1.id;
                    let data_motion = resolved[idx].1.motion_name.clone();
                    let data_facial = resolved[idx].1.facial_name.clone();
                    let data_costume = resolved[idx].1.costume_type.clone();
                    let ghost dv = spec_model_data(models_now[idx as int], ct, md);
                    proof {
                        assert(dv.id == data_id as int);
                        assert(dv.motion_name == data_motion@);
                        assert(dv.facial_name == data_facial@);
                        assert(dv.costume_type == data_costume@);
                    }
                    let mut talk_characters: Vec<crate::scenario::TalkCharacter> = Vec::new();
                    talk_characters.push(
                        crate::scenario::TalkCharacter { character2d_id: data_id },
                    );
                    let mut motions: Vec<crate::scenario::TalkMotion> = Vec::new();
                    if j != 0 {
                        motions.push(
                            crate::scenario::TalkMotion {
                                character2d_id: data_id,
                                motion_name: data_motion.clone(),
                                facial_name: data_facial.clone(),
                                timing_sync_value_milli: 0,
                            },
                        );
                    }
                    let window_display_name = crate::tables::capitalize(speaker.as_str());
                    let td = crate::scenario::ScenarioTalkData {
                        talk_characters,
                        window_display_name,
                        body: payload.data[j].data.text.dialogue.clone(),
                        talk_tention: 0,
                        lip_sync: 1,
                        motion_change_from: 1,
                        motions,
                        voices: Vec::new(),
                        speed_milli: 0,
                        font_size: 0,
                        when_finish_close_window: if j == payload.data.len() - 1 {
                            1
                        } else {
                            0
                        },
                        require_play_effect: 0,
                        effect_reference_idx: 0,
                        require_play_sound: 0,
                        sound_reference_idx: 0,
                        target_value_scale_milli: 0,
                    };
                    proof {
                        assert(td@.talk_characters =~= seq![dv.id]);
                        if j != 0 {
                            assert(td@.motions =~= seq![
                                crate::scenario::MotionView {
                                    character2d_id: dv.id,
                                    motion_name: dv.motion_name,
                                    facial_name: dv.facial_name,
                                    timing_sync_value_milli: 0,
                                },
                            ]);
                        } else {
                            assert(td@.motions =~= Seq::<crate::scenario::MotionView>::empty());
                        }
                        assert(td@.voices =~= Seq::<crate::scenario::VoiceView>::empty());
                        assert(td@ == spec_scene_talk(scenes, j as int, ct, md));
                    }
                    self.talk_data.push(td);
                    proof {
                        assert(self.talk_data@.map_values(
                            |t: crate::scenario::ScenarioTalkData| t@,
                        ) =~= talks_before.push(spec_scene_talk(scenes, j as int, ct, md)));
                    }
                    // The scene's character layout, and after the final
                    // scene the terminal entry.
                    let lay = crate::scenario::ScenarioCharacterLayout {
                        layout_type: if j == 0 {
                            2
                        } else {
                            0
                        },
                        side_from: if j == 0 {
                            4
                        } else {
                            3
                        },
                        side_from_offset_x_milli: 0,
                        side_to: if j == 0 {
                            4
                        } else {
                            3
                        },
                        side_to_offset_x_milli: 0,
                        depth_type: 0,
                        character2d_id: data_id,
                        costume_type: if j == 0 {
                            data_costume.clone()
                        } else {
                            String::new()
                        },
                        motion_name: data_motion.clone(),
                        facial_name: data_facial.clone(),
                        move_speed_type: 0,
                    };
                    proof {
                        assert(lay@ == spec_scene_layout(j as int, dv));
                    }
                    self.layout_data.push(lay);
                    if j == payload.data.len() - 1 {
                        self.layout_data.push(
                            crate::scenario::ScenarioCharacterLayout {
                                layout_type: 3,
                                side_from: 4,
                                side_from_offset_x_milli: 0,
                                side_to: 4,
                                side_to_offset_x_milli: 0,
                                depth_type: 0,
                                character2d_id: data_id,
                                costume_type: String::new(),
                                motion_name: String::new(),
                                facial_name: String::new(),
                                move_speed_type: 0,
                            },
                        );
                        proof {
                            assert(self.layout_data@.map_values(
                                |l: crate::scenario::ScenarioCharacterLayout| l@,
                            ) =~= layouts_before.push(spec_scene_layout(j as int, dv)).push(
                                spec_terminal_layout(dv.id),
                            ));
                        }
                    } else {
                        proof {
                            assert(self.layout_data@.map_values(
                                |l: crate::scenario::ScenarioCharacterLayout| l@,
                            ) =~= layouts_before.push(spec_scene_layout(j as int, dv)));
                        }
                    }
                    // The dialogue snippet, carrying the next timeline
                    // index and referencing this scene's position.
                    let ghost snippets_before = self.snippets@;
                    let sn_index = self.snippets.len();
                    self.snippets.push(
                        ScenarioSnippet {
                            index: sn_index as i32,
                            action: 1,
                            progress_behavior: 1,
                            reference_index: j as i32,
                            delay_milli: 2000,
                        },
                    );
                    proof {
                        assert(self.snippets@ =~= snippets_before.push(
                            ScenarioSnippet {
                                index: snippets_before.len() as i32,
                                action: 1,
                                progress_behavior: 1,
                                reference_index: (j as int) as i32,
                                delay_milli: 2000,
                            },
                        ));
                    }
                },
                None => {
                    proof {
                        match spec_speaker_idx(models_now, key) {
                            Some(si) => {
                                assert(resolved@[si].0@ != key);
                            },
                            None => {},
                        }
                        assert(spec_speaker_idx(models_now, key) is None);
                    }
                    self.talk_data.push(crate::scenario::ScenarioTalkData::default());
                    proof {
                        assert(self.talk_data@.map_values(
                            |t: crate::scenario::ScenarioTalkData| t@,
                        ) =~= talks_before.push(default_talk_view()));
                        assert(spec_scene_talk(scenes, j as int, ct, md) == default_talk_view());
                    }
                },
            }
            j += 1;
        }
        proof {
            assert(scenes.skip(n) =~= Seq::<CustomStoryScene>::empty());
            lemma_appears_unique(scenes, ct, n);
            // The terminal-layout shape of a resolving final scene follows
            // from one unfolding of the layout builder.
            if spec_speaker_idx(scene_models_upto(scenes, n), spec_speaker_key(scenes, n - 1))
                is Some {
                assert(spec_layouts(scenes, ct, md, n) == spec_layouts(scenes, ct, md, n - 1).push(
                    spec_scene_layout(
                        n - 1,
                        spec_model_data(
                            scene_models_upto(scenes, n)[spec_speaker_idx(
                                scene_models_upto(scenes, n),
                                spec_speaker_key(scenes, n - 1),
                            )->0],
                            ct,
                            md,
                        ),
                    ),
                ).push(
                    spec_terminal_layout(
                        spec_model_data(
                            scene_models_upto(scenes, n)[spec_speaker_idx(
                                scene_models_upto(scenes, n),
                                spec_speaker_key(scenes, n - 1),
                            )->0],
                            ct,
                            md,
                        ).id,
                    ),
                ));
                let lv = spec_layouts(scenes, ct, md, n);
                assert(lv.len() > 0);
                assert(lv.last().layout_type == 3 && lv.last().costume_type == Seq::<
                    char,
                >::empty() && lv.last().motion_name == Seq::<char>::empty()
                    && lv.last().facial_name == Seq::<char>::empty());
                assert(self.layout_data@.len() == lv.len());
                assert(self.layout_data@.last()@ == self.layout_data@.map_values(
                    |l: crate::scenario::ScenarioCharacterLayout| l@,
                )[lv.len() - 1]);
            }
        }
        Ok(())
    }
}

/// Finds the most recently processed model entry whose character key equals
/// the speaker key, scanning the resolution cache from its end.
fn lookup_speaker(resolved: &Vec<(String, CharacterData)>, key: &str) -> (r: Option<usize>)
    ensures
        match r {
            Some(i) => i < resolved@.len() && resolved@[i as int].0@ == key@ && forall|j: int|
                i < j < resolved@.len() ==> (#[trigger] resolved@[j]).0@ != key@,
            None => forall|j: int|
                0 <= j < resolved@.len() ==> (#[trigger] resolved@[j]).0@ != key@,
        },
{
    let mut i: usize = resolved.len();
    while i > 0
        invariant
            i <= resolved@.len(),
            forall|j: int| i <= j < resolved@.len() ==> (#[trigger] resolved@[j]).0@ != key@,
        decreases i,
    {
        if str_eq(resolved[i - 1].0.as_str(), key) {
            return Some(i - 1);
        }
        i -= 1;
    }
    None
}

} // verus!
