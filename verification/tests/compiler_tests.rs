use mikumikuloader::compiler::{validate_story, CompileError};
use mikumikuloader::mods::{ModData, ModType};
use mikumikuloader::scenario::{
    CustomStory, CustomStoryScene, Scenario, SekaiStoriesScene, SekaiStoriesSceneModels,
    SekaiStoriesSceneText, SekaiStoriesSceneTransform, UnityReference,
};

fn blank_scenario() -> Scenario {
    Scenario {
        game_object: UnityReference::default(),
        enabled: 1,
        script: UnityReference::default(),
        name: "event_129_01".to_string(),
        scenario_id: "event_129_01".to_string(),
        appear_characters: Vec::new(),
        first_layout: Vec::new(),
        first_bgm: "bgm00000".to_string(),
        episode_music_video_id: String::new(),
        first_background: String::new(),
        first_aisac_value: String::new(),
        first_character_layout_mode: 0,
        snippets: Vec::new(),
        talk_data: Vec::new(),
        layout_data: Vec::new(),
        special_effect_data: Vec::new(),
        sound_data: Vec::new(),
        need_bundle_names: Vec::new(),
        include_sound_data_bundle_names: Vec::new(),
        scenario_snippet_character_layout_modes: Vec::new(),
    }
}

fn model(character: &str, model_name: &str, pose: i32, expr: i32) -> SekaiStoriesSceneModels {
    SekaiStoriesSceneModels {
        from: "sekai".to_string(),
        character: character.to_string(),
        model_name: model_name.to_string(),
        model_transform: SekaiStoriesSceneTransform { x: 0, y: 0, scale_milli: 1000 },
        model_expression: expr,
        model_pose: pose,
    }
}

fn scene(
    background: &str,
    tag: &str,
    dialogue: &str,
    models: Vec<SekaiStoriesSceneModels>,
) -> CustomStoryScene {
    CustomStoryScene {
        index: 0,
        data: SekaiStoriesScene {
            last_modified: String::new(),
            background: background.to_string(),
            text: SekaiStoriesSceneText {
                name_tag: tag.to_string(),
                dialogue: dialogue.to_string(),
            },
            models,
        },
    }
}

fn story(scenes: Vec<CustomStoryScene>) -> CustomStory {
    CustomStory {
        file_name: "story.toml".to_string(),
        modpack_name: "My Mod".to_string(),
        banner_image: None,
        story_background: None,
        title_background: None,
        logo: None,
        data: scenes,
    }
}

fn kohane_table() -> Vec<(String, i32)> {
    vec![("09kohane".to_string(), 286)]
}

fn kohane_docs() -> Vec<(String, Vec<String>)> {
    vec![(
        "09kohane_normal".to_string(),
        vec![
            "w-cute-glad01".to_string(),
            "w-cute-think01".to_string(),
            "face_cry_01".to_string(),
            "face_smile_01".to_string(),
        ],
    )]
}

#[test]
fn one_scene_story_compiles_to_the_expected_record() {
    let mut record = blank_scenario();
    let payload = story(vec![scene(
        "/img/background_special/bg_a001101.png",
        "Kohane",
        "Hello!",
        vec![model("kohane", "09kohane_normal", 0, 1)],
    )]);
    record
        .generate_story_assetbundle(&payload, &kohane_table(), &kohane_docs())
        .unwrap();

    assert_eq!(record.first_background, "bg_a001101");
    assert_eq!(record.need_bundle_names, vec!["scenario/background/bg_a001101".to_string()]);

    // Exactly one appearance entry.
    assert_eq!(record.appear_characters.len(), 1);
    assert_eq!(record.appear_characters[0].character2d_id, 286);
    assert_eq!(record.appear_characters[0].costume_type, "09kohane_normal");

    // One dialogue entry with no motion transition in the first scene.
    assert_eq!(record.talk_data.len(), 1);
    let talk = &record.talk_data[0];
    assert_eq!(talk.talk_characters.len(), 1);
    assert_eq!(talk.talk_characters[0].character2d_id, 286);
    assert_eq!(talk.window_display_name, "Kohane");
    assert_eq!(talk.body, "Hello!");
    assert!(talk.motions.is_empty());
    assert_eq!(talk.when_finish_close_window, 1);

    // Three preamble effects.
    assert_eq!(record.special_effect_data.len(), 3);
    assert_eq!(record.special_effect_data[0].string_val, "Created with MikuMikuLoader");
    assert_eq!(record.special_effect_data[1].string_val, "My Mod");
    assert_eq!(record.special_effect_data[2].effect_type, 4);

    // A five-step timeline: three effect steps, the appearance, the talk.
    assert_eq!(record.snippets.len(), 5);
    for (i, snippet) in record.snippets.iter().enumerate() {
        assert_eq!(snippet.index, i as i32);
    }
    assert_eq!(record.snippets[3].action, 2);
    assert_eq!(record.snippets[4].action, 1);
    assert_eq!(record.snippets[4].reference_index, 0);

    // The scene layout plus the terminal entry.
    assert_eq!(record.layout_data.len(), 2);
    assert_eq!(record.layout_data[0].layout_type, 2);
    assert_eq!(record.layout_data[0].motion_name, "w-cute-glad01");
    assert_eq!(record.layout_data[0].facial_name, "face_cry_01");
    assert_eq!(record.layout_data[0].costume_type, "09kohane_normal");
}

#[test]
fn timeline_indices_stay_contiguous_over_many_scenes() {
    let mut record = blank_scenario();
    let payload = story(vec![
        scene("bg.png", "Kohane", "One", vec![model("kohane", "09kohane_normal", 0, 1)]),
        scene("bg.png", "kohane", "Two", vec![model("kohane", "09kohane_normal", 1, 2)]),
        scene("bg.png", "kohane", "Three", vec![]),
    ]);
    record
        .generate_story_assetbundle(&payload, &kohane_table(), &kohane_docs())
        .unwrap();
    assert_eq!(record.snippets.len(), 7);
    for (i, snippet) in record.snippets.iter().enumerate() {
        assert_eq!(snippet.index, i as i32);
    }
    // Later scenes carry a motion transition and leave the costume blank.
    assert_eq!(record.talk_data.len(), 3);
    assert_eq!(record.talk_data[1].motions.len(), 1);
    assert_eq!(record.talk_data[1].motions[0].motion_name, "w-cute-think01");
    assert_eq!(record.talk_data[1].motions[0].facial_name, "face_smile_01");
    assert_eq!(record.talk_data[1].when_finish_close_window, 0);
    assert_eq!(record.talk_data[2].when_finish_close_window, 1);
    assert_eq!(record.layout_data[1].layout_type, 0);
    assert_eq!(record.layout_data[1].costume_type, "");
}

#[test]
fn repeated_appearances_are_not_duplicated() {
    let mut record = blank_scenario();
    let payload = story(vec![
        scene("bg.png", "kohane", "One", vec![model("kohane", "09kohane_normal", 0, 1)]),
        scene("bg.png", "kohane", "Two", vec![model("kohane", "09kohane_normal", 1, 2)]),
    ]);
    record
        .generate_story_assetbundle(&payload, &kohane_table(), &kohane_docs())
        .unwrap();
    assert_eq!(record.appear_characters.len(), 1);
}

#[test]
fn the_final_resolving_scene_closes_the_layout_timeline() {
    let mut record = blank_scenario();
    let payload = story(vec![
        scene("bg.png", "kohane", "One", vec![model("kohane", "09kohane_normal", 0, 1)]),
        scene("bg.png", "kohane", "Two", vec![]),
    ]);
    record
        .generate_story_assetbundle(&payload, &kohane_table(), &kohane_docs())
        .unwrap();
    let last = record.layout_data.last().unwrap();
    assert_eq!(last.layout_type, 3);
    assert_eq!(last.costume_type, "");
    assert_eq!(last.motion_name, "");
    assert_eq!(last.facial_name, "");
}

#[test]
fn an_unmatched_speaker_gets_the_default_dialogue_entry() {
    let mut record = blank_scenario();
    let payload = story(vec![
        scene("bg.png", "kohane", "One", vec![model("kohane", "09kohane_normal", 0, 1)]),
        scene("bg.png", "somebody", "Two", vec![]),
    ]);
    record
        .generate_story_assetbundle(&payload, &kohane_table(), &kohane_docs())
        .unwrap();
    assert_eq!(record.talk_data.len(), 2);
    assert_eq!(record.talk_data[1].window_display_name, "Kohane");
    assert_eq!(record.talk_data[1].body, "Default body");
    // The unmatched scene adds no layout and no timeline step.
    assert_eq!(record.layout_data.len(), 1);
    assert_eq!(record.snippets.len(), 5);
}

#[test]
fn an_unknown_character_key_falls_back_to_the_default_data() {
    let mut record = blank_scenario();
    let table = vec![("somechar".to_string(), 42)];
    let payload = story(vec![scene(
        "bg.png",
        "zzz",
        "Line",
        vec![model("zzz", "somechar_x", 0, 1)],
    )]);
    record
        .generate_story_assetbundle(&payload, &table, &Vec::new())
        .unwrap();
    // The appearance list uses the character table's id; the dialogue and
    // layout use the fallback data.
    assert_eq!(record.appear_characters[0].character2d_id, 42);
    assert_eq!(record.talk_data[0].talk_characters[0].character2d_id, 286);
    assert_eq!(record.layout_data[0].motion_name, "w-cute-glad01");
    assert_eq!(record.layout_data[0].facial_name, "face_cry_01");
}

#[test]
fn a_foreign_origin_is_rejected() {
    let mut record = blank_scenario();
    let mut m = model("kohane", "09kohane_normal", 0, 1);
    m.from = "elsewhere".to_string();
    let payload = story(vec![scene("bg.png", "kohane", "One", vec![m])]);
    assert_eq!(
        record.generate_story_assetbundle(&payload, &kohane_table(), &kohane_docs()),
        Err(CompileError::UnsupportedOrigin)
    );
    // The record stays untouched on an error.
    assert!(record.snippets.is_empty());
    assert!(record.talk_data.is_empty());
}

#[test]
fn a_missing_table_entry_is_rejected() {
    let mut record = blank_scenario();
    let payload = story(vec![scene(
        "bg.png",
        "kohane",
        "One",
        vec![model("kohane", "09kohane_normal", 0, 1)],
    )]);
    assert_eq!(
        record.generate_story_assetbundle(&payload, &Vec::new(), &kohane_docs()),
        Err(CompileError::UnknownCharacter)
    );
}

#[test]
fn a_missing_motion_document_is_rejected() {
    let mut record = blank_scenario();
    let payload = story(vec![scene(
        "bg.png",
        "kohane",
        "One",
        vec![model("kohane", "09kohane_normal", 0, 1)],
    )]);
    assert_eq!(
        record.generate_story_assetbundle(&payload, &kohane_table(), &Vec::new()),
        Err(CompileError::MissingMotionDocument)
    );
}

#[test]
fn a_story_without_any_model_is_rejected() {
    let mut record = blank_scenario();
    let payload = story(vec![scene("bg.png", "kohane", "One", vec![])]);
    assert_eq!(
        record.generate_story_assetbundle(&payload, &kohane_table(), &kohane_docs()),
        Err(CompileError::NoResolvableCharacters)
    );
}

#[test]
fn validation_matches_compilation() {
    let good = story(vec![scene(
        "bg.png",
        "kohane",
        "One",
        vec![model("kohane", "09kohane_normal", 0, 1)],
    )]);
    assert!(validate_story(&good, &kohane_table(), &kohane_docs()).is_none());
    let bad = story(vec![scene("bg.png", "kohane", "One", vec![])]);
    assert_eq!(
        validate_story(&bad, &kohane_table(), &kohane_docs()),
        Some(CompileError::NoResolvableCharacters)
    );
}

#[test]
fn mod_kinds_are_named() {
    let data = ModData {
        mod_name: "m".to_string(),
        enabled: true,
        mod_type: ModType::Story(Scenario::default()),
        invalidated_assets: Vec::new(),
        injected_assets: Vec::new(),
    };
    assert_eq!(data.mod_type.variant_name(), "Story");
}

#[test]
fn the_default_record_is_template_shaped() {
    let record = Scenario::default();
    assert_eq!(record.name, "event_129_01");
    assert_eq!(record.scenario_id, "event_129_01");
    assert_eq!(record.first_background, "bg_c001101");
    assert_eq!(record.first_bgm, "bgm00000");
    assert_eq!(record.snippets.len(), 1);
    assert_eq!(record.talk_data.len(), 1);
    assert_eq!(record.talk_data[0].window_display_name, "Kohane");
    assert_eq!(record.need_bundle_names, vec!["scenario/background/bg_c001101".to_string()]);
}
