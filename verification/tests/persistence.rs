use zhunji::persistence::activity::ActivityStore;
use zhunji::persistence::credentials::{
    chunk_account, chunk_json_payload, clean_credentials, lookup_marketplace_github_token,
    manifest_accepted, stale_chunk_accounts, vault_read_step, write_marketplace_github_token,
    CredentialsVault,
    CredsAsrEntry, CredsChunkManifest, CredsLlmEntry, CredsRoot, VaultRead, VaultStep,
    KEYRING_CHUNK_MAX_UTF16_UNITS,
};
use zhunji::persistence::history::{
    append_with_retention, apply_retention, clear, delete, history_cap, update_entry, Instant,
};
use zhunji::persistence::paths::{
    configured_models_base_dir, credentials_path, data_dir, foundry_app_data_root, foundry_logs_root,
    foundry_model_cache_root, foundry_native_runtime_root, is_recording_name, models_root,
    models_root_for_base_dir, recording_expired, recording_path_for_session,
    sherpa_onnx_models_root, surplus_recordings, temporary_name, StoragePath,
};
use zhunji::persistence::preferences::{
    backup_name, migrated_streaming, preserve_style_preferences_from, read_preferences_step,
    streaming_default_migrated, PreferencesStep,
};
use zhunji::persistence::HISTORY_CAP;
use zhunji::types::{
    ChineseScriptPreference, DictationSession, HistorySource, HotkeyMode, InsertStatus,
    PasteShortcut, Platform, PolishMode, ShortcutBinding, UserPreferences, WindowsInsertionMode,
};

fn session(id: &str, created_at: &str) -> DictationSession {
    DictationSession {
        id: id.into(),
        created_at: created_at.into(),
        source: HistorySource::Voice,
        raw_transcript: "x".into(),
        final_text: "x".into(),
        mode: PolishMode::Raw,
        style_pack_id: None,
        translation_active: false,
        polish_source: None,
        app_bundle_id: None,
        app_name: None,
        insert_status: InsertStatus::Inserted,
        error_code: None,
        duration_ms: None,
        dictionary_entry_count: None,
        has_audio_recording: None,
        asr_provider: None,
        asr_model: None,
        llm_provider: None,
        llm_model: None,
        asr_ms: None,
        polish_ms: None,
    }
}

// 2026-08-10T00:00:00Z
const NOW: Instant = Instant { secs: 1_786_320_000, nanos: 0 };

#[test]
fn apply_retention_truncates_to_max_entries_keeping_newest() {
    let mut list: Vec<DictationSession> = Vec::new();
    for i in 0..8 {
        append_with_retention(
            &mut list,
            session(&format!("s{i}"), &format!("2026-08-0{i}T10:00:00Z")),
            0,
            None,
            NOW,
        );
    }
    apply_retention(&mut list, 0, Some(5), NOW);
    assert_eq!(list.len(), 5);
    assert_eq!(list[0].id, "s7");
    assert_eq!(list[4].id, "s3");
}

#[test]
fn apply_retention_truncates_by_days() {
    let mut list: Vec<DictationSession> = Vec::new();
    append_with_retention(&mut list, session("old", "2020-01-01T00:00:00Z"), 0, None, NOW);
    append_with_retention(&mut list, session("new", "2026-08-01T00:00:00Z"), 0, None, NOW);
    apply_retention(&mut list, 30, None, NOW);
    assert_eq!(list.len(), 1);
    assert_eq!(list[0].id, "new");
}

#[test]
fn entries_without_a_time_are_kept() {
    let mut list = vec![session("odd", "some day"), session("old", "2020-01-01T00:00:00Z")];
    apply_retention(&mut list, 1, None, NOW);
    assert_eq!(list.len(), 1);
    assert_eq!(list[0].id, "odd");
}

#[test]
fn time_zones_count_in_the_age_of_an_entry() {
    let mut list = vec![
        session("in", "2026-08-09T02:00:00+02:00"),
        session("out", "2026-08-09T01:59:59+02:00"),
    ];
    apply_retention(&mut list, 1, None, NOW);
    assert_eq!(list.len(), 1);
    assert_eq!(list[0].id, "in");
}

#[test]
fn history_is_bounded() {
    assert_eq!(HISTORY_CAP, 200);
    assert_eq!(history_cap(None), 200);
    assert_eq!(history_cap(Some(0)), 5);
    assert_eq!(history_cap(Some(100_000)), 200);
    let mut list: Vec<DictationSession> = Vec::new();
    for i in 0..210 {
        append_with_retention(
            &mut list,
            session(&format!("s{i}"), "2026-08-01T00:00:00Z"),
            0,
            None,
            NOW,
        );
    }
    assert_eq!(list.len(), 200);
    assert_eq!(list[0].id, "s209");
}

#[test]
fn entries_are_deleted_changed_and_cleared() {
    let mut list = vec![session("a", ""), session("b", ""), session("a", "")];
    assert!(!delete(&mut list, "z"));
    assert!(delete(&mut list, "a"));
    assert_eq!(list.len(), 1);
    let mut changed = session("b", "");
    changed.final_text = "y".into();
    assert!(update_entry(&mut list, changed));
    assert_eq!(list[0].final_text, "y");
    assert!(!update_entry(&mut list, session("z", "")));
    clear(&mut list);
    assert!(list.is_empty());
}

#[test]
fn activity_is_counted_by_day_in_order() {
    let mut store = ActivityStore::new_fallback();
    store.bump("2026-08-02");
    store.bump("2026-08-01");
    store.bump("2026-08-02");
    let days = store.snapshot();
    assert_eq!(days.len(), 2);
    assert_eq!(days[0].date, "2026-08-01");
    assert_eq!(days[0].count, 1);
    assert_eq!(days[1].date, "2026-08-02");
    assert_eq!(days[1].count, 2);
}

#[test]
fn activity_keeps_two_years() {
    let mut store = ActivityStore::new_fallback();
    for i in 0..740 {
        store.bump(&format!("day-{i:04}"));
    }
    assert_eq!(store.list.len(), 731);
    assert_eq!(store.list[0].date, "day-0009");
}

#[test]
fn credential_payload_chunks_stay_under_windows_blob_limit() {
    let payload = format!(
        "{}{}{}",
        "a".repeat(KEYRING_CHUNK_MAX_UTF16_UNITS + 25),
        "😀".repeat(20),
        "b".repeat(KEYRING_CHUNK_MAX_UTF16_UNITS + 25)
    );
    let chunks = chunk_json_payload(&payload);
    assert!(chunks.len() > 1);
    assert_eq!(chunks.concat(), payload);
    assert!(chunks
        .iter()
        .all(|chunk| chunk.encode_utf16().count() <= KEYRING_CHUNK_MAX_UTF16_UNITS));
}

#[test]
fn empty_payload_is_one_empty_chunk() {
    assert_eq!(chunk_json_payload(""), vec![String::new()]);
}

#[test]
fn marketplace_github_token_uses_the_credentials_payload_not_provider_accounts() {
    let mut root = CredsRoot::default();
    assert_eq!(lookup_marketplace_github_token(&root), None);

    write_marketplace_github_token(&mut root, Some("gho_vault_only".to_string()));

    assert_eq!(lookup_marketplace_github_token(&root).as_deref(), Some("gho_vault_only"));
    assert!(root.asr.is_empty());
    assert!(root.llm.is_empty());
}

#[test]
fn marketplace_logout_removes_only_the_marketplace_token() {
    let mut root = CredsRoot::default();
    root.active_llm = "configured-provider".to_string();
    write_marketplace_github_token(&mut root, Some("gho_remove_me".to_string()));

    write_marketplace_github_token(&mut root, None);

    assert_eq!(lookup_marketplace_github_token(&root), None);
    assert_eq!(root.active_llm, "configured-provider");
}

fn asr_entry(api_key: Option<&str>) -> CredsAsrEntry {
    CredsAsrEntry {
        api_key: api_key.map(|k| k.to_string()),
        base_url: None,
        model: None,
        app_key: None,
        access_key: None,
        resource_id: None,
        auth_mode: None,
        volcengine_api_key: None,
        vocabulary_id: None,
        advanced_config: None,
        xfyun_app_id: None,
        xfyun_api_key: None,
    }
}

#[test]
fn providers_without_credentials_are_dropped() {
    let mut root = CredsRoot::default();
    root.asr.push(("full".to_string(), asr_entry(Some("k"))));
    root.asr.push(("empty".to_string(), asr_entry(Some(""))));
    root.llm.push((
        "none".to_string(),
        CredsLlmEntry {
            display_name: None,
            api_key: None,
            base_url: None,
            model: None,
            temperature: None,
            extra_headers: Some(Vec::new()),
        },
    ));
    let root = clean_credentials(root);
    assert_eq!(root.asr.len(), 1);
    assert_eq!(root.asr[0].0, "full");
    assert!(root.llm.is_empty());
}

#[test]
fn vault_follows_the_engine_that_was_chosen() {
    let mut vault = CredentialsVault::new();
    assert_eq!(vault.root.version, 0);
    assert_eq!(vault.get_active_asr(), "doubao");
    assert!(!vault.sync_active_asr_provider("doubao"));
    assert!(vault.sync_active_asr_provider("mine"));
    assert_eq!(vault.get_active_asr(), "mine");
    vault.set_active_asr_provider("grok_stt");
    assert_eq!(vault.get_active_asr(), "grok_stt");
}

#[test]
fn old_chunks_are_named_to_be_removed() {
    assert_eq!(chunk_account(None, 3), "credentials.v1.chunk.3");
    assert_eq!(chunk_account(Some("g"), 0), "credentials.v1.chunk.g.0");
    let old = CredsChunkManifest { generation: None, chunks: 4 };
    assert_eq!(
        stale_chunk_accounts(&old, 2),
        vec!["credentials.v1.chunk.2".to_string(), "credentials.v1.chunk.3".to_string()]
    );
    let old = CredsChunkManifest { generation: Some("g".to_string()), chunks: 1 };
    assert_eq!(stale_chunk_accounts(&old, 2), vec!["credentials.v1.chunk.g.0".to_string()]);
}

#[test]
fn vault_is_read_again_where_failures_pass() {
    match vault_read_step(Platform::Windows, 2, VaultRead::Failed("busy".to_string())) {
        VaultStep::Retry { wait_ms } => assert_eq!(wait_ms, 120),
        _ => panic!("gave up"),
    }
    match vault_read_step(Platform::Windows, 4, VaultRead::Failed("busy".to_string())) {
        VaultStep::Fail(e) => assert_eq!(e, "busy"),
        _ => panic!("went on"),
    }
    assert!(matches!(
        vault_read_step(Platform::Macos, 1, VaultRead::Failed("no".to_string())),
        VaultStep::Fail(_)
    ));
    assert!(matches!(
        vault_read_step(Platform::Macos, 1, VaultRead::NoEntry),
        VaultStep::Done(None)
    ));
    match vault_read_step(Platform::Macos, 1, VaultRead::Value("v".to_string())) {
        VaultStep::Done(Some(v)) => assert_eq!(v, "v"),
        _ => panic!("lost"),
    }
}

#[test]
fn custom_models_root_uses_openless_models_suffix() {
    let data = StoragePath::at("/data");
    let root = models_root_for_base_dir(&data, Some("/tmp/models-of-mine"));

    assert_eq!(root.base, "/tmp/models-of-mine");
    assert_eq!(root.parts, vec!["OpenLess".to_string(), "models".to_string()]);
}

#[test]
fn models_are_kept_with_the_data_unless_chosen_otherwise() {
    let data = StoragePath::at("/data");
    assert_eq!(models_root_for_base_dir(&data, Some("  ")).parts, vec!["models".to_string()]);
    assert_eq!(configured_models_base_dir(None), Ok(None));
    let chosen = models_root(&data, Some("{\"localAsrModelsBaseDir\":\" /big \"}")).unwrap();
    assert_eq!(chosen.base, "/big");
    assert!(models_root(&data, Some("nonsense")).is_err());
}

#[test]
fn data_lives_where_the_platform_wants_it() {
    let mac = data_dir(Platform::Macos, Some("/Users/me"), None, None).unwrap();
    assert_eq!(mac.base, "/Users/me");
    assert_eq!(mac.parts, vec!["Library", "Application Support", "Zhunji"]);
    assert_eq!(data_dir(Platform::Macos, None, None, None).unwrap_err(), "HOME not set");
    let windows = data_dir(Platform::Windows, None, Some("C:\\AppData"), None).unwrap();
    assert_eq!(windows.parts, vec!["OpenLess"]);
    assert_eq!(data_dir(Platform::Windows, None, None, None).unwrap_err(), "APPDATA not set");
    let file = credentials_path(Platform::Macos, Some("/Users/me"), None).unwrap();
    assert_eq!(file.base, "/Users/me");
    assert_eq!(file.parts, vec![".openless".to_string(), "credentials.json".to_string()]);
    let file = credentials_path(Platform::Windows, None, Some("C:\\AppData")).unwrap();
    assert_eq!(file.parts, vec!["OpenLess".to_string(), "credentials.json".to_string()]);
    assert_eq!(credentials_path(Platform::Linux, None, None).unwrap_err(), "HOME not set");
    assert_eq!(credentials_path(Platform::Windows, None, None).unwrap_err(), "APPDATA not set");
    let linux = data_dir(Platform::Linux, Some("/home/me"), None, Some("")).unwrap();
    assert_eq!(linux.parts, vec![".local", "share", "OpenLess"]);
    let linux = data_dir(Platform::Linux, Some("/home/me"), None, Some("/xdg")).unwrap();
    assert_eq!(linux.base, "/xdg");
}

#[test]
fn files_have_their_places() {
    let data = StoragePath::at("/data");
    let wav = recording_path_for_session(&data, "abc");
    assert_eq!(wav.parts, vec!["recordings", "abc.wav"]);
    assert_eq!(temporary_name("history.json", "77"), "history.json.tmp-77");
    let models = data.child("models");
    assert_eq!(sherpa_onnx_models_root(&models).parts, vec!["models", "sherpa-onnx"]);
    assert_eq!(foundry_model_cache_root(&models).parts, vec!["models", "foundry-local"]);
    assert_eq!(
        foundry_native_runtime_root(&models).parts,
        vec!["models", "foundry-local", "runtime"]
    );
    assert_eq!(
        foundry_app_data_root(&models).parts,
        vec!["models", "foundry-local", "app-data"]
    );
    assert_eq!(foundry_logs_root(&models).parts, vec!["models", "foundry-local", "logs"]);
}

#[test]
fn oldest_recordings_go_first() {
    let times = [30u64, 10, 40, 20];
    assert_eq!(surplus_recordings(&times, Some(2)), vec![3usize, 1]);
    assert_eq!(surplus_recordings(&times, None), Vec::<usize>::new());
    assert_eq!(surplus_recordings(&times, Some(0)), vec![0usize, 3, 1]);
    assert!(is_recording_name("a.wav"));
    assert!(!is_recording_name(".wav"));
    assert!(!is_recording_name("a.txt"));
    let day: u64 = 86_400_000_000_000;
    assert!(!recording_expired(Some(0), 10 * day, 0));
    assert!(recording_expired(Some(8 * day), 10 * day, 1));
    assert!(!recording_expired(Some(9 * day), 10 * day, 1));
    assert!(recording_expired(None, 10 * day, 1));
}

#[test]
fn broken_preferences_are_kept_aside() {
    assert_eq!(read_preferences_step(None, false), PreferencesStep::UseDefault);
    assert_eq!(read_preferences_step(Some(""), false), PreferencesStep::UseDefault);
    assert_eq!(
        read_preferences_step(Some("{\"defaultMode\":\"gone\"}"), false),
        PreferencesStep::BackUpAndSalvage
    );
    assert_eq!(
        backup_name("17", "ab"),
        "preferences.corrupt-17-ab.json"
    );
}

#[test]
fn old_preferences_are_written_back_once() {
    let old = "{\"streamingInsert\":false}";
    assert!(!streaming_default_migrated(old));
    assert_eq!(read_preferences_step(Some(old), true), PreferencesStep::UseAndWriteBack);
    let new = "{\"streamingInsertDefaultMigrated\":true}";
    assert!(streaming_default_migrated(new));
    assert_eq!(read_preferences_step(Some(new), true), PreferencesStep::Use);
}

#[test]
fn streaming_is_switched_on_once() {
    assert_eq!(migrated_streaming(false, false), (true, true));
    assert_eq!(migrated_streaming(true, false), (true, true));
    assert_eq!(migrated_streaming(false, true), (false, true));
    assert_eq!(migrated_streaming(true, true), (true, true));
}

#[test]
fn only_known_manifests_count() {
    assert!(manifest_accepted("chunked", 1));
    assert!(!manifest_accepted("chunked", 2));
    assert!(!manifest_accepted("whole", 1));
}

fn preferences(mode: PolishMode, microphone: &str) -> UserPreferences {
    UserPreferences {
        active_asr_provider: "doubao".to_string(),
        default_mode: mode,
        hotkey_mode: HotkeyMode::Toggle,
        dictation_hotkey: ShortcutBinding { primary: "D".to_string(), modifiers: Vec::new() },
        translation_hotkey: ShortcutBinding { primary: "T".to_string(), modifiers: Vec::new() },
        open_app_hotkey: None,
        streaming_insert: true,
        record_audio_for_debug: false,
        history_retention_days: 0,
        history_max_entries: None,
        audio_recording_max_entries: None,
        chinese_script_preference: ChineseScriptPreference::Auto,
        restore_clipboard_after_paste: true,
        allow_non_tsf_insertion_fallback: true,
        windows_insertion_mode: WindowsInsertionMode::Tsf,
        paste_shortcut: PasteShortcut::CtrlV,
        mute_during_recording: false,
        microphone_device_name: microphone.to_string(),
        show_capsule: true,
    }
}

#[test]
fn set_preserving_current_style_preferences_keeps_store_mode_fields() {
    let current = preferences(PolishMode::Light, "");
    let mut incoming = preferences(PolishMode::Formal, "External Mic");

    preserve_style_preferences_from(&mut incoming, &current);

    assert_eq!(incoming.default_mode, PolishMode::Light);
    assert_eq!(incoming.microphone_device_name, "External Mic");
}
