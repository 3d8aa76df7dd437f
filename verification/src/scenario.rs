//! The compiled scenario record and the scene-list input format.
//!
//! The record mirrors the game engine's typetree shape.  Fields that the
//! engine stores as fractional seconds are held here as integer
//! milliseconds (the `_milli` fields); the serializing caller divides by
//! 1000 when writing the engine's format.

use vstd::prelude::*;
use vstd::string::*;

verus! {

broadcast use vstd::string::group_string_axioms;

/// The path id of the scenario object inside the stripped template
/// container that compiled records are written into.
pub const SCENARIO_PATH_ID: i64 = 6343946530110770478;

/// Reference to a Unity object (script, game object, ...).
#[derive(Debug, Clone)]
pub struct UnityReference {
    pub file_id: i32,
    pub path_id: i64,
}

impl Default for UnityReference {
    /// A null object reference.
    fn default() -> (r: Self)
        ensures
            r.file_id == 0,
            r.path_id == 0,
    {
        UnityReference { file_id: 0, path_id: 0 }
    }
}

/// One entry of the record's appearance list.
#[derive(Debug, Clone)]
pub struct ScenarioAppearCharacters {
    pub character2d_id: i32,
    pub costume_type: String,
}

/// Mathematical view of [`ScenarioAppearCharacters`].
pub ghost struct AppearView {
    pub character2d_id: int,
    pub costume_type: Seq<char>,
}

impl View for ScenarioAppearCharacters {
    type V = AppearView;

    open spec fn view(&self) -> AppearView {
        AppearView { character2d_id: self.character2d_id as int, costume_type: self.costume_type@ }
    }
}

/// One timeline step of a compiled record.  `reference_index` points into
/// the parallel array selected by `action`, not at the snippet itself.
#[derive(Debug, Clone, PartialEq, Eq, Structural)]
pub struct ScenarioSnippet {
    pub index: i32,
    pub action: i32,
    pub progress_behavior: i32,
    pub reference_index: i32,
    pub delay_milli: i32,
}

/// One speaking character of a talk entry.
#[derive(Debug, Clone, PartialEq, Eq, Structural)]
pub struct TalkCharacter {
    pub character2d_id: i32,
}

/// One motion transition attached to a talk entry.
#[derive(Debug, Clone)]
pub struct TalkMotion {
    pub character2d_id: i32,
    pub motion_name: String,
    pub facial_name: String,
    pub timing_sync_value_milli: i32,
}

/// Mathematical view of [`TalkMotion`].
pub ghost struct MotionView {
    pub character2d_id: int,
    pub motion_name: Seq<char>,
    pub facial_name: Seq<char>,
    pub timing_sync_value_milli: int,
}

impl View for TalkMotion {
    type V = MotionView;

    open spec fn view(&self) -> MotionView {
        MotionView {
            character2d_id: self.character2d_id as int,
            motion_name: self.motion_name@,
            facial_name: self.facial_name@,
            timing_sync_value_milli: self.timing_sync_value_milli as int,
        }
    }
}

/// One voice line attached to a talk entry.
#[derive(Debug, Clone)]
pub struct TalkVoice {
    pub character2d_id: i32,
    pub voice_id: String,
    pub volume_milli: i32,
}

/// Mathematical view of [`TalkVoice`].
pub ghost struct VoiceView {
    pub character2d_id: int,
    pub voice_id: Seq<char>,
    pub volume_milli: int,
}

impl View for TalkVoice {
    type V = VoiceView;

    open spec fn view(&self) -> VoiceView {
        VoiceView {
            character2d_id: self.character2d_id as int,
            voice_id: self.voice_id@,
            volume_milli: self.volume_milli as int,
        }
    }
}

/// One dialogue entry of a compiled record.
#[derive(Debug, Clone)]
pub struct ScenarioTalkData {
    pub talk_characters: Vec<TalkCharacter>,
    pub window_display_name: String,
    pub body: String,
    pub talk_tention: i32,
    pub lip_sync: i32,
    pub motion_change_from: i32,
    pub motions: Vec<TalkMotion>,
    pub voices: Vec<TalkVoice>,
    pub speed_milli: i32,
    pub font_size: i32,
    pub when_finish_close_window: i32,
    pub require_play_effect: i32,
    pub effect_reference_idx: i32,
    pub require_play_sound: i32,
    pub sound_reference_idx: i32,
    pub target_value_scale_milli: i32,
}

/// Mathematical view of [`ScenarioTalkData`].
pub ghost struct TalkView {
    pub talk_characters: Seq<int>,
    pub window_display_name: Seq<char>,
    pub body: Seq<char>,
    pub talk_tention: int,
    pub lip_sync: int,
    pub motion_change_from: int,
    pub motions: Seq<MotionView>,
    pub voices: Seq<VoiceView>,
    pub speed_milli: int,
    pub font_size: int,
    pub when_finish_close_window: int,
    pub require_play_effect: int,
    pub effect_reference_idx: int,
    pub require_play_sound: int,
    pub sound_reference_idx: int,
    pub target_value_scale_milli: int,
}

impl View for ScenarioTalkData {
    type V = TalkView;

    open spec fn view(&self) -> TalkView {
        TalkView {
            talk_characters: self.talk_characters@.map_values(
                |c: TalkCharacter| c.character2d_id as int,
            ),
            window_display_name: self.window_display_name@,
            body: self.body@,
            talk_tention: self.talk_tention as int,
            lip_sync: self.lip_sync as int,
            motion_change_from: self.motion_change_from as int,
            motions: self.motions@.map_values(|m: TalkMotion| m@),
            voices: self.voices@.map_values(|v: TalkVoice| v@),
            speed_milli: self.speed_milli as int,
            font_size: self.font_size as int,
            when_finish_close_window: self.when_finish_close_window as int,
            require_play_effect: self.require_play_effect as int,
            effect_reference_idx: self.effect_reference_idx as int,
            require_play_sound: self.require_play_sound as int,
            sound_reference_idx: self.sound_reference_idx as int,
            target_value_scale_milli: self.target_value_scale_milli as int,
        }
    }
}

/// One character-layout entry of a compiled record.
#[derive(Debug, Clone)]
pub struct ScenarioCharacterLayout {
    pub layout_type: i32,
    pub side_from: i32,
    pub side_from_offset_x_milli: i32,
    pub side_to: i32,
    pub side_to_offset_x_milli: i32,
    pub depth_type: i32,
    pub character2d_id: i32,
    pub costume_type: String,
    pub motion_name: String,
    pub facial_name: String,
    pub move_speed_type: i32,
}

/// Mathematical view of [`ScenarioCharacterLayout`].
pub ghost struct LayoutView {
    pub layout_type: int,
    pub side_from: int,
    pub side_from_offset_x_milli: int,
    pub side_to: int,
    pub side_to_offset_x_milli: int,
    pub depth_type: int,
    pub character2d_id: int,
    pub costume_type: Seq<char>,
    pub motion_name: Seq<char>,
    pub facial_name: Seq<char>,
    pub move_speed_type: int,
}

impl View for ScenarioCharacterLayout {
    type V = LayoutView;

    open spec fn view(&self) -> LayoutView {
        LayoutView {
            layout_type: self.layout_type as int,
            side_from: self.side_from as int,
            side_from_offset_x_milli: self.side_from_offset_x_milli as int,
            side_to: self.side_to as int,
            side_to_offset_x_milli: self.side_to_offset_x_milli as int,
            depth_type: self.depth_type as int,
            character2d_id: self.character2d_id as int,
            costume_type: self.costume_type@,
            motion_name: self.motion_name@,
            facial_name: self.facial_name@,
            move_speed_type: self.move_speed_type as int,
        }
    }
}

/// One special-effect entry of a compiled record.
#[derive(Debug, Clone)]
pub struct ScenarioSpecialEffect {
    pub effect_type: i32,
    pub string_val: String,
    pub string_val_sub: String,
    pub duration_milli: i32,
    pub int_val: i32,
}

/// Mathematical view of [`ScenarioSpecialEffect`].
pub ghost struct EffectView {
    pub effect_type: int,
    pub string_val: Seq<char>,
    pub string_val_sub: Seq<char>,
    pub duration_milli: int,
    pub int_val: int,
}

impl View for ScenarioSpecialEffect {
    type V = EffectView;

    open spec fn view(&self) -> EffectView {
        EffectView {
            effect_type: self.effect_type as int,
            string_val: self.string_val@,
            string_val_sub: self.string_val_sub@,
            duration_milli: self.duration_milli as int,
            int_val: self.int_val as int,
        }
    }
}

/// One sound entry of a compiled record.
#[derive(Debug, Clone)]
pub struct ScenarioSoundData {
    pub play_mode: i32,
    pub bgm: String,
    pub se: String,
    pub volume_milli: i32,
    pub se_bundle_name: String,
    pub duration_milli: i32,
    pub bgm_block_index: i32,
}

/// One per-snippet layout-mode entry of a compiled record.
#[derive(Debug, Clone, PartialEq, Eq, Structural)]
pub struct ScenarioSnippetLayoutMode {
    pub character_layout_mode: i32,
}

/// The compiled scenario record, shaped like the engine's typetree.
#[derive(Debug, Clone)]
pub struct Scenario {
    pub game_object: UnityReference,
    pub enabled: i32,
    pub script: UnityReference,
    pub name: String,
    pub scenario_id: String,
    pub appear_characters: Vec<ScenarioAppearCharacters>,
    pub first_layout: Vec<String>,
    pub first_bgm: String,
    pub episode_music_video_id: String,
    pub first_background: String,
    pub first_aisac_value: String,
    pub first_character_layout_mode: i32,
    pub snippets: Vec<ScenarioSnippet>,
    pub talk_data: Vec<ScenarioTalkData>,
    pub layout_data: Vec<ScenarioCharacterLayout>,
    pub special_effect_data: Vec<ScenarioSpecialEffect>,
    pub sound_data: Vec<ScenarioSoundData>,
    pub need_bundle_names: Vec<String>,
    pub include_sound_data_bundle_names: Vec<String>,
    pub scenario_snippet_character_layout_modes: Vec<ScenarioSnippetLayoutMode>,
}

/// The scene-list input: an ordered list of scenes plus the mod metadata.
#[derive(Debug, Clone)]
pub struct CustomStory {
    pub file_name: String,
    pub modpack_name: String,
    pub banner_image: Option<String>,
    pub story_background: Option<String>,
    pub title_background: Option<String>,
    pub logo: Option<String>,
    pub data: Vec<CustomStoryScene>,
}

/// One indexed scene of the input list.
#[derive(Debug, Clone)]
pub struct CustomStoryScene {
    pub index: i64,
    pub data: SekaiStoriesScene,
}

/// One scene: background, dialogue text and the models on stage.
#[derive(Debug, Clone)]
pub struct SekaiStoriesScene {
    pub last_modified: String,
    pub background: String,
    pub text: SekaiStoriesSceneText,
    pub models: Vec<SekaiStoriesSceneModels>,
}

/// The dialogue text of a scene: speaker tag and spoken line.
#[derive(Debug, Clone)]
pub struct SekaiStoriesSceneText {
    pub name_tag: String,
    pub dialogue: String,
}

/// One model directive of a scene.
#[derive(Debug, Clone)]
pub struct SekaiStoriesSceneModels {
    pub from: String,
    pub character: String,
    pub model_name: String,
    pub model_transform: SekaiStoriesSceneTransform,
    pub model_expression: i32,
    pub model_pose: i32,
}

/// The on-stage transform of a model.  `scale_milli` holds thousandths of
/// the engine's fractional scale.
#[derive(Debug, Clone, PartialEq, Eq, Structural)]
pub struct SekaiStoriesSceneTransform {
    pub x: i32,
    pub y: i32,
    pub scale_milli: i32,
}

/// The view of a default-constructed [`TalkMotion`].
pub open spec fn default_motion_view() -> MotionView {
    MotionView {
        character2d_id: 286,
        motion_name: "w-normal15-shy"@,
        facial_name: "face_smallmouth_01"@,
        timing_sync_value_milli: 0,
    }
}

impl Default for TalkMotion {
    /// The fixed default motion transition.
    fn default() -> (r: Self)
        ensures
            r@ == default_motion_view(),
    {
        TalkMotion {
            character2d_id: 286,
            motion_name: String::from_str("w-normal15-shy"),
            facial_name: String::from_str("face_smallmouth_01"),
            timing_sync_value_milli: 0,
        }
    }
}

/// The view of a default-constructed [`TalkVoice`].
pub open spec fn default_voice_view() -> VoiceView {
    VoiceView {
        character2d_id: 286,
        voice_id: "voice_ev_street_17_01_01_09"@,
        volume_milli: 1000,
    }
}

impl Default for TalkVoice {
    /// The fixed default voice line.
    fn default() -> (r: Self)
        ensures
            r@ == default_voice_view(),
    {
        TalkVoice {
            character2d_id: 286,
            voice_id: String::from_str("voice_ev_street_17_01_01_09"),
            volume_milli: 1000,
        }
    }
}

/// The view of a default-constructed [`ScenarioTalkData`].
pub open spec fn default_talk_view() -> TalkView {
    TalkView {
        talk_characters: seq![286int],
        window_display_name: "Kohane"@,
        body: "Default body"@,
        talk_tention: 0,
        lip_sync: 1,
        motion_change_from: 1,
        motions: seq![default_motion_view()],
        voices: seq![default_voice_view()],
        speed_milli: 0,
        font_size: 0,
        when_finish_close_window: 1,
        require_play_effect: 0,
        effect_reference_idx: 0,
        require_play_sound: 0,
        sound_reference_idx: 0,
        target_value_scale_milli: 0,
    }
}

impl Default for ScenarioTalkData {
    /// The fixed default dialogue entry, substituted when a scene's speaker
    /// cannot be matched against the resolved characters.
    fn default() -> (r: Self)
        ensures
            r@ == default_talk_view(),
    {
        let mut talk_characters: Vec<TalkCharacter> = Vec::new();
        talk_characters.push(TalkCharacter { character2d_id: 286 });
        let mut motions: Vec<TalkMotion> = Vec::new();
        motions.push(TalkMotion::default());
        let mut voices: Vec<TalkVoice> = Vec::new();
        voices.push(TalkVoice::default());
        let r = ScenarioTalkData {
            talk_characters,
            window_display_name: String::from_str("Kohane"),
            body: String::from_str("Default body"),
            talk_tention: 0,
            lip_sync: 1,
            motion_change_from: 1,
            motions,
            voices,
            speed_milli: 0,
            font_size: 0,
            when_finish_close_window: 1,
            require_play_effect: 0,
            effect_reference_idx: 0,
            require_play_sound: 0,
            sound_reference_idx: 0,
            target_value_scale_milli: 0,
        };
        proof {
            assert(r@.talk_characters =~= default_talk_view().talk_characters);
            assert(r@.motions =~= default_talk_view().motions);
            assert(r@.voices =~= default_talk_view().voices);
        }
        r
    }
}

impl Default for ScenarioAppearCharacters {
    /// An all-blank appearance entry.
    fn default() -> (r: Self)
        ensures
            r.character2d_id == 0,
            r.costume_type@ == Seq::<char>::empty(),
    {
        ScenarioAppearCharacters { character2d_id: 0, costume_type: String::new() }
    }
}

impl Default for ScenarioSnippet {
    /// An all-zero timeline step.
    fn default() -> (r: Self)
        ensures
            r == (ScenarioSnippet {
                index: 0,
                action: 0,
                progress_behavior: 0,
                reference_index: 0,
                delay_milli: 0,
            }),
    {
        ScenarioSnippet { index: 0, action: 0, progress_behavior: 0, reference_index: 0, delay_milli: 0 }
    }
}

impl Default for TalkCharacter {
    /// A speaking-character entry with a blank id.
    fn default() -> (r: Self)
        ensures
            r == (TalkCharacter { character2d_id: 0 }),
    {
        TalkCharacter { character2d_id: 0 }
    }
}

/// The view of a default-constructed [`ScenarioCharacterLayout`].
pub open spec fn default_layout_view() -> LayoutView {
    LayoutView {
        layout_type: 2,
        side_from: 4,
        side_from_offset_x_milli: 0,
        side_to: 4,
        side_to_offset_x_milli: 0,
        depth_type: 0,
        character2d_id: 286,
        costume_type: "v2_09kohane_casual"@,
        motion_name: "w-normal15-tilthead"@,
        facial_name: "face_smallmouth_01"@,
        move_speed_type: 0,
    }
}

impl Default for ScenarioCharacterLayout {
    /// The fixed default character layout.
    fn default() -> (r: Self)
        ensures
            r@ == default_layout_view(),
    {
        ScenarioCharacterLayout {
            layout_type: 2,
            side_from: 4,
            side_from_offset_x_milli: 0,
            side_to: 4,
            side_to_offset_x_milli: 0,
            depth_type: 0,
            character2d_id: 286,
            costume_type: String::from_str("v2_09kohane_casual"),
            motion_name: String::from_str("w-normal15-tilthead"),
            facial_name: String::from_str("face_smallmouth_01"),
            move_speed_type: 0,
        }
    }
}

/// The view of a default-constructed [`ScenarioSpecialEffect`].
pub open spec fn default_effect_view() -> EffectView {
    EffectView {
        effect_type: 8,
        string_val: "Morning"@,
        string_val_sub: Seq::empty(),
        duration_milli: 0,
        int_val: 0,
    }
}

impl Default for ScenarioSpecialEffect {
    /// The fixed default special effect.
    fn default() -> (r: Self)
        ensures
            r@ == default_effect_view(),
    {
        ScenarioSpecialEffect {
            effect_type: 8,
            string_val: String::from_str("Morning"),
            string_val_sub: String::new(),
            duration_milli: 0,
            int_val: 0,
        }
    }
}

impl Default for ScenarioSoundData {
    /// The fixed default sound entry.
    fn default() -> (r: Self)
        ensures
            r.play_mode == 0,
            r.bgm@ == Seq::<char>::empty(),
            r.se@ == "se_walk_women_001_1"@,
            r.volume_milli == 1000,
            r.se_bundle_name@ == Seq::<char>::empty(),
            r.duration_milli == 0,
            r.bgm_block_index == 0,
    {
        ScenarioSoundData {
            play_mode: 0,
            bgm: String::new(),
            se: String::from_str("se_walk_women_001_1"),
            volume_milli: 1000,
            se_bundle_name: String::new(),
            duration_milli: 0,
            bgm_block_index: 0,
        }
    }
}

impl Default for ScenarioSnippetLayoutMode {
    /// The fixed default per-snippet layout mode.
    fn default() -> (r: Self)
        ensures
            r == (ScenarioSnippetLayoutMode { character_layout_mode: 3 }),
    {
        ScenarioSnippetLayoutMode { character_layout_mode: 3 }
    }
}

impl Default for Scenario {
    /// The template-shaped default record: one default entry in each list,
    /// with the template's identifiers and first background.
    fn default() -> (r: Self)
        ensures
            r.enabled == 1,
            r.name@ == "event_129_01"@,
            r.scenario_id@ == "event_129_01"@,
            r.first_bgm@ == "bgm00000"@,
            r.first_background@ == "bg_c001101"@,
            r.first_character_layout_mode == 0,
            r.appear_characters@.len() == 1,
            r.snippets@.len() == 1,
            r.talk_data@.len() == 1,
            r.layout_data@.len() == 1,
            r.special_effect_data@.len() == 1,
            r.sound_data@.len() == 1,
            r.need_bundle_names@.len() == 1,
            r.need_bundle_names@[0]@ == "scenario/background/bg_c001101"@,
            r.include_sound_data_bundle_names@.len() == 0,
            r.scenario_snippet_character_layout_modes@.len() == 1,
            r.first_layout@.len() == 0,
    {
        let mut appear_characters: Vec<ScenarioAppearCharacters> = Vec::new();
        appear_characters.push(ScenarioAppearCharacters::default());
        let mut snippets: Vec<ScenarioSnippet> = Vec::new();
        snippets.push(ScenarioSnippet::default());
        let mut talk_data: Vec<ScenarioTalkData> = Vec::new();
        talk_data.push(ScenarioTalkData::default());
        let mut layout_data: Vec<ScenarioCharacterLayout> = Vec::new();
        layout_data.push(ScenarioCharacterLayout::default());
        let mut special_effect_data: Vec<ScenarioSpecialEffect> = Vec::new();
        special_effect_data.push(ScenarioSpecialEffect::default());
        let mut sound_data: Vec<ScenarioSoundData> = Vec::new();
        sound_data.push(ScenarioSoundData::default());
        let mut need_bundle_names: Vec<String> = Vec::new();
        need_bundle_names.push(String::from_str("scenario/background/bg_c001101"));
        let mut scenario_snippet_character_layout_modes: Vec<ScenarioSnippetLayoutMode> =
            Vec::new();
        scenario_snippet_character_layout_modes.push(ScenarioSnippetLayoutMode::default());
        Scenario {
            game_object: UnityReference::default(),
            enabled: 1,
            script: UnityReference::default(),
            name: String::from_str("event_129_01"),
            scenario_id: String::from_str("event_129_01"),
            appear_characters,
            first_layout: Vec::new(),
            first_bgm: String::from_str("bgm00000"),
            episode_music_video_id: String::new(),
            first_background: String::from_str("bg_c001101"),
            first_aisac_value: String::new(),
            first_character_layout_mode: 0,
            snippets,
            talk_data,
            layout_data,
            special_effect_data,
            sound_data,
            need_bundle_names,
            include_sound_data_bundle_names: Vec::new(),
            scenario_snippet_character_layout_modes,
        }
    }
}

} // verus!
