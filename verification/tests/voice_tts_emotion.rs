use moxin::voice::tts_emotion::{
    emotion_preset, emotion_preset_or_neutral, instruct_for_request, instruct_is_over_limit_for_request,
    selection_for_request, TtsInstructSelection, TtsInstructState, TTS_INSTRUCT_MAX_CHARS,
};

#[test]
fn tts_emotion_neutral_emotion_has_no_native_instruct() {
    let preset = emotion_preset("neutral").unwrap();

    assert_eq!(preset.instruct(false), None);
    assert_eq!(preset.instruct(true), None);
}

#[test]
fn tts_emotion_happy_emotion_maps_to_native_instruct() {
    let preset = emotion_preset("happy").unwrap();

    assert_eq!(preset.label(false), "开心");
    assert_eq!(preset.label(true), "Happy");
    assert_eq!(preset.instruct(false), Some("用开心、轻快的语气说"));
}

#[test]
fn tts_emotion_angry_uses_approved_strong_instruct_in_both_languages() {
    let angry = emotion_preset("angry").unwrap();

    assert_eq!(
        angry.instruct(false),
        Some("用极其愤怒、严厉斥责、情绪爆发的语气说，语调强烈，咬字有力")
    );
    assert_eq!(
        angry.instruct(true),
        Some(
            "Use an extremely angry, stern, emotionally explosive tone, with forceful intonation and articulation."
        )
    );
}

#[test]
fn tts_emotion_preset_edit_and_clear_follow_custom_state_rules() {
    let mut state = TtsInstructState::default();

    state.select_preset("happy", false);
    assert_eq!(
        state.selection(),
        TtsInstructSelection::Preset("happy")
    );
    assert_eq!(state.text(), "用开心、轻快的语气说");

    state.edit("请带着克制但明显的喜悦说".to_string());
    assert_eq!(state.selection(), TtsInstructSelection::Custom);

    state.edit(String::new());
    assert_eq!(state.selection(), TtsInstructSelection::Neutral);
    assert_eq!(state.effective_instruct(), None);
}

#[test]
fn tts_emotion_whitespace_only_text_remains_custom_and_is_not_trimmed() {
    let mut state = TtsInstructState::default();

    state.edit("  \n".to_string());

    assert_eq!(state.selection(), TtsInstructSelection::Custom);
    assert_eq!(state.effective_instruct(), Some("  \n"));
}

#[test]
fn tts_emotion_history_matches_any_localized_preset_variant() {
    assert_eq!(
        TtsInstructState::from_history(Some("Say it in a happy and lively tone")),
        TtsInstructState::from_preset("happy", true)
    );
    assert_eq!(
        TtsInstructState::from_history(Some("用开心、轻快的语气说")).selection(),
        TtsInstructSelection::Preset("happy")
    );
}

#[test]
fn tts_emotion_unsupported_request_omits_preserved_instruct() {
    let state = TtsInstructState::from_preset("happy", false);

    assert_eq!(
        instruct_for_request(&state, "qwen3_tts_mlx", true),
        Some("用开心、轻快的语气说")
    );
    assert_eq!(instruct_for_request(&state, "primespeech", true), None);
    assert_eq!(
        instruct_for_request(&state, "qwen3_tts_mlx", false),
        None
    );
}

#[test]
fn tts_emotion_unsupported_request_ignores_hidden_validation_and_uses_neutral_metadata() {
    let mut state = TtsInstructState::default();
    state.edit("情".repeat(TTS_INSTRUCT_MAX_CHARS + 1));

    assert!(!instruct_is_over_limit_for_request(
        &state,
        "qwen3_tts_mlx",
        false
    ));
    assert_eq!(
        selection_for_request(&state, "qwen3_tts_mlx", false),
        TtsInstructSelection::Neutral
    );
    assert!(instruct_is_over_limit_for_request(
        &state,
        "qwen3_tts_mlx",
        true
    ));
    assert_eq!(
        selection_for_request(&state, "qwen3_tts_mlx", true),
        TtsInstructSelection::Custom
    );
}

#[test]
fn tts_emotion_instruct_limit_counts_unicode_scalars() {
    let mut state = TtsInstructState::default();

    state.edit("情".repeat(TTS_INSTRUCT_MAX_CHARS));
    assert_eq!(state.char_count(), 200);
    assert!(!state.is_over_limit());

    state.edit("情".repeat(TTS_INSTRUCT_MAX_CHARS + 1));
    assert_eq!(state.char_count(), 201);
    assert!(state.is_over_limit());
}

#[test]
fn tts_emotion_history_restore_classifies_neutral_preset_and_custom() {
    assert_eq!(
        TtsInstructState::from_history(None).selection(),
        TtsInstructSelection::Neutral
    );
    assert_eq!(
        TtsInstructState::from_history(Some("")).selection(),
        TtsInstructSelection::Neutral
    );
    assert_eq!(
        TtsInstructState::from_history(Some("Say it in a sad and subdued tone")).selection(),
        TtsInstructSelection::Preset("sad")
    );
    assert_eq!(
        TtsInstructState::from_history(Some("Very restrained, but clearly hopeful."))
            .selection(),
        TtsInstructSelection::Custom
    );
}

#[test]
fn voice_unknown_and_custom_ids_select_neutral() {
    assert!(emotion_preset("custom").is_none());
    assert_eq!(emotion_preset_or_neutral("unknown").id, "neutral");
    let state = TtsInstructState::from_preset("custom", false);
    assert_eq!(state.selection(), TtsInstructSelection::Neutral);
    assert_eq!(state.text(), "");
}

#[test]
fn voice_history_restores_each_preset_in_both_languages() {
    for id in ["happy", "angry", "sad", "gentle", "excited"] {
        for english in [false, true] {
            let preset = emotion_preset(id).unwrap();
            let restored = TtsInstructState::from_history(preset.instruct(english));
            assert_eq!(restored, TtsInstructState::from_preset(id, english));
            assert_eq!(restored.selection_id(), id);
        }
    }
}

#[test]
fn voice_editing_keeps_preset_text_exact_and_toggling_twice_restores() {
    let mut state = TtsInstructState::from_preset("gentle", true);
    assert_eq!(state.text(), "Say it in a gentle and calm tone");
    state.toggle_editor();
    state.toggle_editor();
    assert!(!state.editor_expanded());
    state.edit(" x ".to_string());
    assert_eq!(state.text(), " x ");
    assert_eq!(state.char_count(), 3);
    assert_eq!(selection_for_request(&state, "qwen3_tts_mlx", true), TtsInstructSelection::Custom);
    assert_eq!(instruct_for_request(&state, "qwen3_tts_mlx", true), Some(" x "));
}

#[test]
fn voice_preset_id_getter() {
    assert_eq!(emotion_preset("gentle").unwrap().id(), "gentle");
    assert_eq!(emotion_preset_or_neutral("nope").id(), "neutral");
}
