use moxin::translator::tts_emotion::{
    emotion_preset, emotion_preset_or_neutral, legacy_preset_instructs, text_prefers_chinese_instruct, instruct_for_request, instruct_is_over_limit_for_request,
    selection_for_request, TtsInstructSelection, TtsInstructState, TTS_INSTRUCT_MAX_CHARS,
};

#[test]
fn neutral_emotion_has_no_native_instruct() {
    let preset = emotion_preset("neutral").unwrap();

    assert_eq!(preset.instruct(false), None);
    assert_eq!(preset.instruct(true), None);
}

#[test]
fn happy_emotion_maps_to_native_instruct() {
    let preset = emotion_preset("happy").unwrap();

    assert_eq!(preset.label(false), "开心");
    assert_eq!(preset.label(true), "Happy");
    assert_eq!(
        preset.instruct(false),
        Some("体现非常开心兴奋的语气，声音明亮有笑意，音调明显上扬，语速轻快，像终于见到很想念的人时忍不住笑着说话。")
    );
    assert_eq!(
        preset.instruct(true),
        Some("Deliver it with an unmistakably happy and excited performance: bright smiling voice, clearly rising pitch, brisk pace, as if happily greeting someone you have missed.")
    );
}

#[test]
fn angry_uses_approved_strong_instruct_in_both_languages() {
    let angry = emotion_preset("angry").unwrap();

    assert_eq!(
        angry.instruct(false),
        Some("体现非常愤怒压抑的语气，音量偏大，咬字很重，语速偏快，重音明显，语气短促有压迫感，像在强烈质问。")
    );
    assert_eq!(
        angry.instruct(true),
        Some(
            "Deliver it with an unmistakably angry and forceful performance: louder voice, hard articulation, faster pace, strong stress, short pressuring phrasing, as if strongly questioning someone."
        )
    );
}

#[test]
fn strong_preset_instructs_match_the_approved_performance_descriptions() {
    assert_eq!(
        emotion_preset("sad").unwrap().instruct(false),
        Some("体现非常悲伤委屈的语气，声音低落发颤，语速缓慢，有明显哭腔和哽咽，句子中带停顿，像快要哭出来。")
    );
    assert_eq!(
        emotion_preset("sad").unwrap().instruct(true),
        Some("Deliver it with an unmistakably sad and hurt performance: low trembling voice, slow pace, audible tearful tone and catches in the throat, with pauses as if about to cry.")
    );
    assert_eq!(
        emotion_preset("gentle").unwrap().instruct(false),
        Some("体现温柔安抚的语气，声音柔和靠前，音量适中，语速平稳偏慢，重音轻，像在耐心安慰对方。")
    );
    assert_eq!(
        emotion_preset("gentle").unwrap().instruct(true),
        Some("Deliver it with a gentle reassuring performance: soft close voice, moderate volume, steady slightly slow pace, light stress, as if patiently comforting someone.")
    );
    assert_eq!(
        emotion_preset("excited").unwrap().instruct(false),
        Some("体现非常兴奋期待的语气，声音明亮有冲劲，音调起伏更大，语速偏快，重音积极，像迫不及待分享好消息。")
    );
    assert_eq!(
        emotion_preset("excited").unwrap().instruct(true),
        Some("Deliver it with a very excited and anticipatory performance: bright energetic voice, wider pitch movement, faster pace, upbeat stress, as if eager to share good news.")
    );
}

#[test]
fn preset_edit_and_clear_follow_custom_state_rules() {
    let mut state = TtsInstructState::default();

    state.select_preset("happy", false);
    assert_eq!(state.selection(), TtsInstructSelection::Preset("happy"));
    assert_eq!(
        state.text(),
        "体现非常开心兴奋的语气，声音明亮有笑意，音调明显上扬，语速轻快，像终于见到很想念的人时忍不住笑着说话。"
    );

    state.edit("请带着克制但明显的喜悦说".to_string());
    assert_eq!(state.selection(), TtsInstructSelection::Custom);

    state.edit(String::new());
    assert_eq!(state.selection(), TtsInstructSelection::Neutral);
    assert_eq!(state.effective_instruct(), None);
}

#[test]
fn whitespace_only_text_remains_custom_and_is_not_trimmed() {
    let mut state = TtsInstructState::default();

    state.edit("  \n".to_string());

    assert_eq!(state.selection(), TtsInstructSelection::Custom);
    assert_eq!(state.effective_instruct(), Some("  \n"));
}

#[test]
fn history_matches_any_localized_preset_variant() {
    assert_eq!(
        TtsInstructState::from_history(Some("Deliver it with an unmistakably happy and excited performance: bright smiling voice, clearly rising pitch, brisk pace, as if happily greeting someone you have missed.")),
        TtsInstructState::from_preset("happy", true)
    );
    assert_eq!(
        TtsInstructState::from_history(Some("体现非常开心兴奋的语气，声音明亮有笑意，音调明显上扬，语速轻快，像终于见到很想念的人时忍不住笑着说话。")).selection(),
        TtsInstructSelection::Preset("happy")
    );
}

#[test]
fn history_still_matches_legacy_short_preset_instructs() {
    assert_eq!(
        TtsInstructState::from_history(Some("Say it in a happy and lively tone")).selection(),
        TtsInstructSelection::Preset("happy")
    );
    assert_eq!(
        TtsInstructState::from_history(Some("用难过、低落的语气说")).selection(),
        TtsInstructSelection::Preset("sad")
    );
}

#[test]
fn unsupported_request_omits_preserved_instruct() {
    let state = TtsInstructState::from_preset("happy", false);

    assert_eq!(
        instruct_for_request(&state, "qwen3_tts_mlx", true, "Hello there"),
        Some("体现非常开心兴奋的语气，声音明亮有笑意，音调明显上扬，语速轻快，像终于见到很想念的人时忍不住笑着说话。")
    );
    assert_eq!(
        instruct_for_request(&state, "primespeech", true, "Hello there"),
        None
    );
    assert_eq!(
        instruct_for_request(&state, "qwen3_tts_mlx", false, "Hello there"),
        None
    );
}

#[test]
fn preset_request_prefers_chinese_instruct_for_chinese_text() {
    let state = TtsInstructState::from_preset("happy", true);

    assert_eq!(
        state.text(),
        "Deliver it with an unmistakably happy and excited performance: bright smiling voice, clearly rising pitch, brisk pace, as if happily greeting someone you have missed."
    );
    assert_eq!(
        instruct_for_request(
            &state,
            "qwen3_tts_mlx",
            true,
            "复杂的问题背后也许没有统一的答案"
        ),
        Some("体现非常开心兴奋的语气，声音明亮有笑意，音调明显上扬，语速轻快，像终于见到很想念的人时忍不住笑着说话。")
    );
}

#[test]
fn custom_request_keeps_custom_instruct_for_chinese_text() {
    let mut state = TtsInstructState::default();
    state.edit("Say this with restrained but clear delight.".to_string());

    assert_eq!(
        instruct_for_request(
            &state,
            "qwen3_tts_mlx",
            true,
            "复杂的问题背后也许没有统一的答案"
        ),
        Some("Say this with restrained but clear delight.")
    );
}

#[test]
fn unsupported_request_ignores_hidden_validation_and_uses_neutral_metadata() {
    let mut state = TtsInstructState::default();
    state.edit("情".repeat(TTS_INSTRUCT_MAX_CHARS + 1));

    assert!(!instruct_is_over_limit_for_request(
        &state,
        "qwen3_tts_mlx",
        false
    ));
    assert_eq!(
        selection_for_request(&state, "qwen3_tts_mlx", false),
        TtsInstructSelection::Neutral
    );
    assert!(instruct_is_over_limit_for_request(
        &state,
        "qwen3_tts_mlx",
        true
    ));
    assert_eq!(
        selection_for_request(&state, "qwen3_tts_mlx", true),
        TtsInstructSelection::Custom
    );
}

#[test]
fn instruct_limit_counts_unicode_scalars() {
    let mut state = TtsInstructState::default();

    state.edit("情".repeat(TTS_INSTRUCT_MAX_CHARS));
    assert_eq!(state.char_count(), 200);
    assert!(!state.is_over_limit());

    state.edit("情".repeat(TTS_INSTRUCT_MAX_CHARS + 1));
    assert_eq!(state.char_count(), 201);
    assert!(state.is_over_limit());
}

#[test]
fn history_restore_classifies_neutral_preset_and_custom() {
    assert_eq!(
        TtsInstructState::from_history(None).selection(),
        TtsInstructSelection::Neutral
    );
    assert_eq!(
        TtsInstructState::from_history(Some("")).selection(),
        TtsInstructSelection::Neutral
    );
    assert_eq!(
        TtsInstructState::from_history(Some("Deliver it with an unmistakably sad and hurt performance: low trembling voice, slow pace, audible tearful tone and catches in the throat, with pauses as if about to cry.")).selection(),
        TtsInstructSelection::Preset("sad")
    );
    assert_eq!(
        TtsInstructState::from_history(Some("Very restrained, but clearly hopeful."))
            .selection(),
        TtsInstructSelection::Custom
    );
}

#[test]
fn unknown_and_custom_ids_select_neutral() {
    assert!(emotion_preset("custom").is_none());
    assert_eq!(emotion_preset_or_neutral("unknown").id, "neutral");
    let state = TtsInstructState::from_preset("custom", true);
    assert_eq!(state.selection(), TtsInstructSelection::Neutral);
    assert_eq!(state.text(), "");
    assert_eq!(state.selection_id(), "neutral");
}

#[test]
fn selecting_a_preset_discards_custom_text_and_keeps_editor_open() {
    let mut state = TtsInstructState::default();
    state.toggle_editor();
    state.edit("my own words".to_string());
    assert_eq!(state.selection_id(), "custom");
    state.select_preset("sad", false);
    assert_eq!(state.selection(), TtsInstructSelection::Preset("sad"));
    assert_eq!(state.selection_id(), "sad");
    assert_eq!(
        state.text(),
        "体现非常悲伤委屈的语气，声音低落发颤，语速缓慢，有明显哭腔和哽咽，句子中带停顿，像快要哭出来。"
    );
    assert!(state.editor_expanded());
    state.collapse();
    assert!(!state.editor_expanded());
    assert_eq!(state.selection(), TtsInstructSelection::Preset("sad"));
    state.select_preset("neutral", true);
    assert_eq!(state.effective_instruct(), None);
}

#[test]
fn legacy_instructs_of_each_preset() {
    assert_eq!(
        legacy_preset_instructs("gentle"),
        vec!["用温柔、平静的语气说", "Say it in a gentle and calm tone"]
    );
    assert!(legacy_preset_instructs("neutral").is_empty());
    assert_eq!(
        TtsInstructState::from_history(Some("Say it in an excited and energetic tone")).selection(),
        TtsInstructSelection::Preset("excited")
    );
    assert_eq!(
        TtsInstructState::from_history(Some("Say it in an excited and energetic tone")).text(),
        "Say it in an excited and energetic tone"
    );
}

#[test]
fn chinese_detection_covers_the_three_ideograph_blocks() {
    assert!(!text_prefers_chinese_instruct("Hello there"));
    assert!(!text_prefers_chinese_instruct(""));
    assert!(text_prefers_chinese_instruct("say 好"));
    assert!(text_prefers_chinese_instruct("\u{3400}"));
    assert!(text_prefers_chinese_instruct("\u{F900}"));
    assert!(!text_prefers_chinese_instruct("\u{4DC0}"));
}

#[test]
fn chinese_text_is_ignored_when_the_request_takes_no_instruct() {
    let state = TtsInstructState::from_preset("angry", true);
    assert_eq!(instruct_for_request(&state, "primespeech", true, "你好"), None);
    assert_eq!(
        instruct_for_request(&state, "qwen3_tts_mlx", true, "你好"),
        Some("体现非常愤怒压抑的语气，音量偏大，咬字很重，语速偏快，重音明显，语气短促有压迫感，像在强烈质问。")
    );
    let neutral = TtsInstructState::default();
    assert_eq!(instruct_for_request(&neutral, "qwen3_tts_mlx", true, "你好"), None);
}

#[test]
fn clone_keeps_the_state() {
    let state = TtsInstructState::from_preset("happy", true);
    let copy = state.clone();
    assert_eq!(copy, state);
    assert_eq!(emotion_preset("happy").unwrap().label(true), "Happy");
}

#[test]
fn translator_preset_id_getter() {
    assert_eq!(emotion_preset("gentle").unwrap().id(), "gentle");
    assert_eq!(emotion_preset_or_neutral("nope").id(), "neutral");
}
