use moxin::model_init::{
    attempt_outcome, attempt_start, bytes_after, repo_file_step, resume_range, retry_notice,
    resolve_repos, FileAction, auto_provider_order, completion_marker_valid, download_response_plan,
    endpoint_from_env_value, initial_bytes_done, model_dir_action, modelscope_manifest_files,
    normalize_endpoint, provider_fallback_step, ready_requirements, requirements_met,
    resolve_providers, short_repo_name, DownloadProvider, FallbackStep, InitError,
    ModelCompletionMarker, ModelDirAction, ModelKind, ModelProvider, RepoListing, ResponsePlan,
    BOOTSTRAP_VERSION, TOTAL_BYTES,
};

#[test]
fn model_provider_defaults_to_auto_and_accepts_aliases() {
    assert_eq!(
        ModelProvider::from_env_value(None).unwrap(),
        ModelProvider::Auto
    );
    assert_eq!(
        ModelProvider::from_env_value(Some("  ")).unwrap(),
        ModelProvider::Auto
    );
    assert_eq!(
        ModelProvider::from_env_value(Some("auto")).unwrap(),
        ModelProvider::Auto
    );
    assert_eq!(
        ModelProvider::from_env_value(Some("modelscope")).unwrap(),
        ModelProvider::ModelScope
    );
    assert_eq!(
        ModelProvider::from_env_value(Some("ms")).unwrap(),
        ModelProvider::ModelScope
    );
    assert_eq!(
        ModelProvider::from_env_value(Some("huggingface")).unwrap(),
        ModelProvider::HuggingFace
    );
    assert_eq!(
        ModelProvider::from_env_value(Some("hf")).unwrap(),
        ModelProvider::HuggingFace
    );
}

#[test]
fn model_provider_rejects_unknown_values() {
    let err = ModelProvider::from_env_value(Some("unknown")).unwrap_err();
    assert!(err.message().contains("MOXIN_MODEL_PROVIDER"));
}

#[test]
fn auto_provider_order_prefers_modelscope_with_huggingface_fallback() {
    assert_eq!(
        auto_provider_order(true, true).unwrap(),
        vec![ModelProvider::ModelScope, ModelProvider::HuggingFace]
    );
    assert_eq!(
        auto_provider_order(true, false).unwrap(),
        vec![ModelProvider::ModelScope]
    );
    assert_eq!(
        auto_provider_order(false, true).unwrap(),
        vec![ModelProvider::HuggingFace]
    );
}

#[test]
fn auto_provider_order_errors_when_no_provider_is_reachable() {
    let err = auto_provider_order(false, false).unwrap_err();
    assert!(err
        .message()
        .contains("could not reach ModelScope or Hugging Face"));
}

#[test]
fn download_provider_builds_provider_specific_file_urls() {
    let hf = DownloadProvider::huggingface("https://hf.example/".to_string());
    let modelscope = DownloadProvider::modelscope("https://modelscope.example/".to_string());

    assert_eq!(
        hf.repo_file_url("owner/repo", "nested/file.txt"),
        "https://hf.example/owner/repo/resolve/main/nested/file.txt"
    );
    assert_eq!(
        modelscope.repo_file_url("owner/repo", "nested/file.txt"),
        "https://modelscope.example/models/owner/repo/resolve/master/nested/file.txt"
    );
}

#[test]
fn modelscope_manifest_uses_fixed_file_lists() {
    let asr_files = modelscope_manifest_files("mlx-community/Qwen3-ASR-1.7B-8bit").unwrap();
    assert_eq!(
        asr_files,
        &[
            ".gitattributes",
            "README.md",
            "chat_template.json",
            "config.json",
            "generation_config.json",
            "merges.txt",
            "model.safetensors",
            "model.safetensors.index.json",
            "preprocessor_config.json",
            "tokenizer_config.json",
            "vocab.json",
        ]
    );

    let tts_files =
        modelscope_manifest_files("mlx-community/Qwen3-TTS-12Hz-1.7B-CustomVoice-8bit")
            .unwrap();
    assert!(tts_files.contains(&"speech_tokenizer/model.safetensors"));
}

#[test]
fn modelscope_manifest_rejects_unknown_repos() {
    let err = modelscope_manifest_files("custom/repo").unwrap_err();
    assert!(err
        .message()
        .contains("no built-in ModelScope manifest for custom/repo"));
}

#[test]
fn provider_fallback_retries_next_provider_after_error() {
    let providers = vec![
        DownloadProvider::modelscope("https://modelscope.example/".to_string()),
        DownloadProvider::huggingface("https://hf.example/".to_string()),
    ];
    let mut attempts = Vec::new();
    let mut outcomes: Vec<Result<(), String>> = Vec::new();

    loop {
        match provider_fallback_step(&providers, "test operation", &outcomes) {
            FallbackStep::Attempt(index) => {
                let provider = &providers[index];
                attempts.push(provider.kind());
                if provider.kind() == ModelProvider::ModelScope {
                    outcomes.push(Err("modelscope failed".to_string()));
                } else {
                    outcomes.push(Ok(()));
                }
            }
            FallbackStep::Succeeded => break,
            FallbackStep::Failed(err) => panic!("{}", err.message()),
        }
    }

    assert_eq!(
        attempts,
        vec![ModelProvider::ModelScope, ModelProvider::HuggingFace]
    );
}

#[test]
fn provider_fallback_reports_every_failure_in_order() {
    let providers = vec![
        DownloadProvider::modelscope("https://ms.example".to_string()),
        DownloadProvider::huggingface("https://hf.example".to_string()),
    ];
    let outcomes = vec![Err("HTTP 404".to_string()), Err("timeout".to_string())];
    match provider_fallback_step(&providers, "owner/repo", &outcomes) {
        FallbackStep::Failed(err) => assert_eq!(
            err.message(),
            "owner/repo failed using all reachable providers: modelscope: HTTP 404 | huggingface: timeout"
        ),
        other => panic!("unexpected step {other:?}"),
    }
    assert_eq!(
        provider_fallback_step(&providers, "owner/repo", &vec![Err("x".to_string())]),
        FallbackStep::Attempt(1)
    );
    assert_eq!(provider_fallback_step(&providers, "op", &Vec::new()), FallbackStep::Attempt(0));
    match provider_fallback_step(&[], "op", &Vec::new()) {
        FallbackStep::Failed(err) => {
            assert_eq!(err, InitError::NoProviders("op".to_string()));
            assert_eq!(err.message(), "no model download providers configured for op");
        }
        other => panic!("unexpected step {other:?}"),
    }
}

#[test]
fn unsupported_provider_message_quotes_the_normalized_value() {
    let err = ModelProvider::from_env_value(Some("  Unknown\t")).unwrap_err();
    assert_eq!(err, InitError::UnsupportedProvider("unknown".to_string()));
    assert_eq!(
        err.message(),
        "unsupported MOXIN_MODEL_PROVIDER=\"unknown\"; expected auto, modelscope, or huggingface"
    );
    assert_eq!(
        ModelProvider::from_env_value(Some("\u{3000}HF\n")).unwrap(),
        ModelProvider::HuggingFace
    );
    assert_eq!(
        ModelProvider::from_env_value(Some("ModelScope")).unwrap(),
        ModelProvider::ModelScope
    );
}

#[test]
fn endpoints_are_trimmed_of_space_and_trailing_slashes() {
    assert_eq!(normalize_endpoint("  https://x.example//  "), "https://x.example");
    assert_eq!(normalize_endpoint("https://x.example"), "https://x.example");
    assert_eq!(normalize_endpoint("///"), "");
    let hf = DownloadProvider::huggingface(" https://hf.example/ ".to_string());
    assert_eq!(hf.endpoint(), "https://hf.example");
    assert_eq!(hf.name(), "huggingface");
    assert_eq!(
        hf.huggingface_repo_info_url("owner/repo"),
        "https://hf.example/api/models/owner/repo"
    );
}

#[test]
fn blank_endpoint_variables_fall_back_to_the_default() {
    assert_eq!(endpoint_from_env_value(None, "https://d.example"), "https://d.example");
    assert_eq!(endpoint_from_env_value(Some(" \t"), "https://d.example"), "https://d.example");
    assert_eq!(endpoint_from_env_value(Some(" https://e.example/ "), "https://d.example"), " https://e.example/ ");
}

#[test]
fn file_listing_depends_on_the_provider() {
    let hf = DownloadProvider::huggingface("https://hf.example".to_string());
    let ms = DownloadProvider::modelscope("https://ms.example".to_string());
    assert_eq!(
        hf.file_listing("custom/repo").unwrap(),
        RepoListing::RemoteIndex("https://hf.example/api/models/custom/repo".to_string())
    );
    match ms.file_listing("mlx-community/Qwen3.5-2B-MLX-4bit").unwrap() {
        RepoListing::Manifest(files) => {
            assert_eq!(files.len(), 12);
            assert!(files.contains(&"tokenizer.json"));
        }
        other => panic!("unexpected listing {other:?}"),
    }
    assert_eq!(
        ms.file_listing("custom/repo").unwrap_err(),
        InitError::NoManifest("custom/repo".to_string())
    );
}

#[test]
fn resolve_providers_follows_the_preference() {
    let ms = DownloadProvider::modelscope("https://ms.example".to_string());
    let hf = DownloadProvider::huggingface("https://hf.example".to_string());
    let auto = resolve_providers(ModelProvider::Auto, &ms, &hf, false, true).unwrap();
    assert_eq!(auto.len(), 1);
    assert_eq!(auto[0].kind(), ModelProvider::HuggingFace);
    let both = resolve_providers(ModelProvider::Auto, &ms, &hf, true, true).unwrap();
    assert_eq!(both.iter().map(|p| p.name()).collect::<Vec<_>>(), vec!["modelscope", "huggingface"]);
    let forced = resolve_providers(ModelProvider::ModelScope, &ms, &hf, false, false).unwrap();
    assert_eq!(forced.len(), 1);
    assert_eq!(forced[0].endpoint(), "https://ms.example");
    assert_eq!(
        resolve_providers(ModelProvider::Auto, &ms, &hf, false, false).unwrap_err(),
        InitError::NoReachableProvider
    );
}

fn ready_with(kind: ModelKind, present: &[&str]) -> bool {
    let groups: Vec<Vec<bool>> = ready_requirements(kind)
        .iter()
        .map(|group| group.iter().map(|name| present.contains(name)).collect())
        .collect();
    requirements_met(&groups)
}

#[test]
fn readiness_requires_the_expected_files() {
    let translator = ["config.json", "tokenizer.json", "tokenizer_config.json", "model.safetensors"];
    assert!(ready_with(ModelKind::Translator, &translator));
    assert!(ready_with(
        ModelKind::Translator,
        &["config.json", "tokenizer.json", "tokenizer_config.json", "model.safetensors.index.json"]
    ));
    assert!(!ready_with(ModelKind::Translator, &["config.json", "model.safetensors"]));
    assert!(ready_with(ModelKind::SpeechRecognition, &["config.json"]));
    assert!(!ready_with(ModelKind::SpeechRecognition, &[]));
    assert!(!ready_with(ModelKind::TextToSpeech, &translator));
    assert_eq!(ready_requirements(ModelKind::TextToSpeech).len(), 7);
}

#[test]
fn model_directory_actions() {
    // A complete directory without a marker is migrated, not downloaded again.
    let migrate = model_dir_action(true, false, true);
    assert_eq!(migrate, ModelDirAction::WriteMarker);
    assert!(migrate.ready());
    assert_eq!(model_dir_action(true, true, true), ModelDirAction::Ready);
    // An incomplete directory is removed.
    let incomplete = model_dir_action(false, false, true);
    assert_eq!(incomplete, ModelDirAction::RemoveUnmarked);
    assert!(!incomplete.ready());
    assert_eq!(model_dir_action(false, true, true), ModelDirAction::ClearIncomplete);
    assert_eq!(model_dir_action(false, false, false), ModelDirAction::Missing);
}

#[test]
fn completion_markers_vouch_for_their_repository_only() {
    let marker = ModelCompletionMarker::for_repo("mlx-community/Qwen3.5-2B-MLX-4bit");
    assert_eq!(marker.bootstrap_version, BOOTSTRAP_VERSION);
    assert!(completion_marker_valid(Some(&marker), "mlx-community/Qwen3.5-2B-MLX-4bit"));
    assert!(!completion_marker_valid(Some(&marker), "mlx-community/Qwen3-ASR-1.7B-8bit"));
    assert!(!completion_marker_valid(None, "mlx-community/Qwen3.5-2B-MLX-4bit"));
}

#[test]
fn progress_bytes_and_names() {
    assert_eq!(initial_bytes_done(true, true, true, true), TOTAL_BYTES);
    assert_eq!(initial_bytes_done(false, false, false, false), 0);
    assert_eq!(initial_bytes_done(false, false, true, false), 1_749_164_032);
    assert_eq!(TOTAL_BYTES, 12_800_319_488);
    assert_eq!(short_repo_name("mlx-community/Qwen3-ASR-1.7B-8bit"), "Qwen3-ASR-1.7B-8bit");
    assert_eq!(short_repo_name("plain"), "plain");
    assert_eq!(short_repo_name("a/b/c"), "c");
    assert_eq!(short_repo_name("trailing/"), "");
}

#[test]
fn download_responses() {
    assert_eq!(download_response_plan(416), ResponsePlan::AlreadyComplete);
    assert_eq!(download_response_plan(206), ResponsePlan::Append);
    assert_eq!(download_response_plan(200), ResponsePlan::Overwrite);
    assert_eq!(download_response_plan(404), ResponsePlan::Fail);
    assert_eq!(download_response_plan(302), ResponsePlan::Fail);
}

#[test]
fn resuming_and_skipping_files() {
    assert_eq!(resume_range(0), None);
    assert_eq!(resume_range(1234), Some(1234));
    assert_eq!(repo_file_step(true, 10), FileAction::Skip);
    assert_eq!(repo_file_step(true, 0), FileAction::Download);
    assert_eq!(repo_file_step(false, 0), FileAction::Download);
    assert_eq!(bytes_after(100, 23), 123);
}

#[test]
fn retries_reset_progress_and_announce_the_switch() {
    let first = attempt_start(0, 10, 50);
    assert!(!first.retry);
    assert_eq!(first.bytes_done, 50);
    let second = attempt_start(1, 10, 50);
    assert!(second.retry);
    assert_eq!(second.bytes_done, 10);
    let hf = DownloadProvider::huggingface("https://hf.example".to_string());
    let (title, detail) = retry_notice("mlx-community/Qwen3-ASR-1.7B-8bit", &hf);
    assert_eq!(title, "Retrying Qwen3-ASR-1.7B-8bit");
    assert_eq!(detail, "Switching to huggingface");
    assert_eq!(attempt_outcome(true, "ASR model incomplete after download", "/m"), Ok(()));
    assert_eq!(
        attempt_outcome(false, "ASR model incomplete after download", "/m"),
        Err("ASR model incomplete after download: /m".to_string())
    );
}

#[test]
fn repositories_default_unless_configured() {
    let repos = resolve_repos(None, Some("me/base"), None, None);
    assert_eq!(repos.tts_custom, "mlx-community/Qwen3-TTS-12Hz-1.7B-CustomVoice-8bit");
    assert_eq!(repos.tts_base, "me/base");
    assert_eq!(repos.asr, "mlx-community/Qwen3-ASR-1.7B-8bit");
    assert_eq!(repos.translator, "mlx-community/Qwen3.5-2B-MLX-4bit");
}
