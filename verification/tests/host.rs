use zhunji::asr::grok_stt::stored_credentials;
use zhunji::audio_mute::{
    activate, not_run, output_muted, output_read, read_answer, read_command, set_answer,
    set_command, AudioMuteGuard, Backend, MuteStep, PlatformMuteGuard,
};
use zhunji::coordinator::inner::EngineStatus;
use zhunji::coordinator_state::{new_session_id, SessionId};
use zhunji::dictionary::{
    add_term, get_terms, list_terms, remove_term, term_added, term_removed, terms_in, terms_text,
};
use zhunji::event_bus::{event_message, EventBus};
use zhunji::ffi::{
    adopt_default_provider, asr_configured_for_provider, changed_shortcuts, check_network_url,
    credentials_payload, done_reply, engine_status_payload, error_reply, export_code,
    export_error_log_reply, export_refusal, invalid_session_reply, is_valid_session_id,
    network_latency, network_payload, outcome_payload, parse_provider_fields, partial_text_payload,
    provider_fields, provider_test_payload, recording_reply, recording_samples,
    retranscribe_error_payload, test_engine_outcome, test_engine_plan, test_provider_plan,
    DeviceWatch, ExportOutcome, ProbePlan, RecordingRead,
};
use zhunji::global_hotkey_runtime::HotkeyRoutes;
use zhunji::ids::new_simple_id;
use zhunji::json::{find_string_recursive, parse_json, Json};
use zhunji::logging::{log_dir_path, rotates_log};
use zhunji::net::{client_settings, Clients};
use zhunji::providers::Provider;
use zhunji::text::{
    contains, decimal_text, ends_with, eq_ignore_ascii_case, first_n_chars, is_blank, join_all,
    lower_ascii, replace_char, signed_decimal_text, starts_with, trim, trim_trailing,
};
use zhunji::types::{
    capsule_state_log_name, CapsuleState, ChineseScriptPreference, HotkeyMode, PasteShortcut,
    Platform, PolishMode, ShortcutBinding, UserPreferences, WindowsInsertionMode,
};

#[test]
fn terms_are_added_trimmed_and_once() {
    let mut list: Vec<String> = Vec::new();
    assert!(add_term(&mut list, "  准记 ").is_ok());
    assert_eq!(list, vec!["准记".to_string()]);
    assert_eq!(add_term(&mut list, "准记").unwrap_err(), "热词已存在");
    assert_eq!(add_term(&mut list, "   ").unwrap_err(), "热词不能为空");
    assert!(add_term(&mut list, &"字".repeat(50)).is_ok());
    assert_eq!(add_term(&mut list, &"字".repeat(51)).unwrap_err(), "热词不超过 50 个字符");
    assert!(remove_term(&mut list, "准记").is_ok());
    assert_eq!(list.len(), 1);
    assert!(remove_term(&mut list, "gone").is_ok());
    assert_eq!(list.len(), 1);
}

#[test]
fn dictionary_holds_a_hundred_terms() {
    let mut list: Vec<String> = Vec::new();
    for i in 0..100 {
        assert!(add_term(&mut list, &format!("t{i}")).is_ok());
    }
    assert_eq!(add_term(&mut list, "more").unwrap_err(), "最多 100 条热词");
    assert_eq!(list.len(), 100);
}

#[test]
fn stored_terms_are_read() {
    assert_eq!(get_terms(Some("[\"a\",\"b\"]")), vec!["a".to_string(), "b".to_string()]);
    assert!(get_terms(Some("[\"a\",1]")).is_empty());
    assert!(get_terms(Some("nonsense")).is_empty());
    assert!(get_terms(None).is_empty());
    assert_eq!(list_terms(Some("[\"a\"]")), Ok(vec!["a".to_string()]));
    assert!(terms_in(&Json::Null).is_empty());
}

#[test]
fn added_term_is_read_back_at_the_end() {
    let first = term_added(None, " 准记 ").unwrap();
    assert_eq!(first, "[\n  \"准记\"\n]");
    let second = term_added(Some(&first), "a \"b\"\\\n\tc").unwrap();
    assert_eq!(second, "[\n  \"准记\",\n  \"a \\\"b\\\"\\\\\\n\\tc\"\n]");
    let terms = vec!["准记".to_string(), "a \"b\"\\\n\tc".to_string()];
    assert_eq!(get_terms(Some(&second)), terms);
    assert_eq!(list_terms(Some(&second)), Ok(terms));
    assert_eq!(term_added(Some(&second), "准记").unwrap_err(), "热词已存在");
    let third = term_removed(Some(&second), "准记").unwrap();
    assert_eq!(get_terms(Some(&third)), vec!["a \"b\"\\\n\tc".to_string()]);
    assert_eq!(terms_text(&[]), Ok("[]".to_string()));
    assert!(get_terms(Some("[]")).is_empty());
}

#[test]
fn events_are_sent_once_the_host_listens() {
    let mut bus: EventBus<u8> = EventBus::new();
    assert!(!bus.callback_registered());
    assert_eq!(bus.emit_unit("app:core-ready"), None);
    assert!(bus.set_callback(1));
    assert!(!bus.set_callback(2));
    assert_eq!(bus.callback(), Some(&1));
    assert!(bus.callback_registered());
    assert_eq!(
        bus.emit_unit("app:core-ready").as_deref(),
        Some("{\"event\":\"app:core-ready\",\"payload\":null}")
    );
    assert_eq!(
        bus.emit("x", Some("[1]")).as_deref(),
        Some("{\"event\":\"x\",\"payload\":[1]}")
    );
    assert_eq!(bus.emit("x", None).as_deref(), Some("{\"event\":\"x\",\"payload\":null}"));
    assert_eq!(bus.emit_raw("x\0", "1"), None);
    assert_eq!(event_message("a", "\0"), None);
}

#[test]
fn system_proxy_toggle_updates_flag_and_rebuilds_shared_client() {
    let mut clients: Clients<u32> = Clients::new();
    clients.set_use_system_proxy(true);
    let _ = clients.http(|| 1);
    assert!(!clients.is_empty());
    clients.set_use_system_proxy(false);
    assert!(!clients.use_system_proxy());
    assert!(clients.is_empty());
    let _ = clients.http(|| 2);
    assert!(clients.contains_key((0, true)));
    clients.set_use_system_proxy(true);
    assert!(clients.use_system_proxy());
}

#[test]
fn clients_are_built_once() {
    let mut clients: Clients<u32> = Clients::new();
    assert_eq!(clients.http(|| 1), 1);
    assert_eq!(clients.http(|| 2), 1);
    assert_eq!(clients.cached_client((7, false), || 3), 3);
    assert_eq!(clients.cached_client((7, false), || 4), 3);
    assert_eq!(clients.cached_client((7, true), || 5), 5);
    let mut built = false;
    let held = clients.cached_client((7, true), || {
        built = true;
        6
    });
    assert_eq!(held, 5);
    assert!(!built);
    let settings = client_settings(true);
    assert!(settings.no_proxy);
    assert_eq!(settings.connect_timeout, 8);
    assert_eq!(settings.pool_idle_timeout, 90);
}

#[test]
fn hotkeys_go_to_their_listeners() {
    let mut routes: HotkeyRoutes<&str> = HotkeyRoutes::new();
    assert_eq!(routes.dispatch(1), None);
    assert!(routes.register(1, "a", Ok(())).is_ok());
    assert_eq!(
        routes.register(2, "b", Err("taken".to_string())),
        Err("taken".to_string())
    );
    assert_eq!(routes.dispatch(1), Some(&"a"));
    assert_eq!(routes.dispatch(2), None);
    assert!(routes.register(1, "c", Ok(())).is_ok());
    assert_eq!(routes.dispatch(1), Some(&"c"));
    routes.unregister(1);
    assert_eq!(routes.dispatch(1), None);
    assert!(!routes.shutdown_requested());
    routes.request_shutdown();
    assert!(routes.shutdown_requested());
}

#[test]
fn log_has_its_place_and_size() {
    let mac = log_dir_path(Platform::Macos, Some("/Users/me"), None, "/tmp");
    assert_eq!(mac.parts, vec!["Library", "Logs", "Zhunji"]);
    let lost = log_dir_path(Platform::Macos, None, None, "/tmp");
    assert_eq!(lost.base, "/tmp");
    assert_eq!(lost.parts, vec!["Zhunji"]);
    let windows = log_dir_path(Platform::Windows, None, Some("C:\\Local"), "/tmp");
    assert_eq!(windows.parts, vec!["Zhunji", "Logs"]);
    let linux = log_dir_path(Platform::Linux, Some("/home/me"), None, "/tmp");
    assert_eq!(linux.parts, vec![".local", "share", "Zhunji", "logs"]);
    assert!(!rotates_log(None));
    assert!(!rotates_log(Some(10 * 1024 * 1024)));
    assert!(rotates_log(Some(10 * 1024 * 1024 + 1)));
}

#[test]
fn output_ends_as_it_began() {
    assert!(matches!(activate(Platform::Macos), MuteStep::Read(Backend::Osascript)));
    assert!(matches!(
        output_read(Backend::Osascript, Ok(false)),
        MuteStep::Mute(Backend::Osascript)
    ));
    let guard = output_muted(Backend::Osascript, Ok(())).unwrap();
    assert_eq!(guard.restore(), (Backend::Osascript, false));
    match output_read(Backend::Pactl, Ok(true)) {
        MuteStep::Done(Ok(guard)) => assert_eq!(guard.restore(), (Backend::Pactl, true)),
        _ => panic!("muted again"),
    }
    let mut held = AudioMuteGuard::activate(Ok(PlatformMuteGuard {
        backend: Backend::Wpctl,
        was_muted: false,
    }))
    .unwrap();
    assert_eq!(held.release(), Some((Backend::Wpctl, false)));
    assert_eq!(held.release(), None);
    assert!(AudioMuteGuard::activate(Err("no".to_string())).is_err());
}

#[test]
fn linux_asks_one_tool_after_the_other() {
    assert!(matches!(activate(Platform::Linux), MuteStep::Read(Backend::Wpctl)));
    assert!(matches!(
        output_read(Backend::Wpctl, Err("missing".to_string())),
        MuteStep::Read(Backend::Pactl)
    ));
    match output_read(Backend::Pactl, Err("missing".to_string())) {
        MuteStep::Done(Err(e)) => assert_eq!(e, "missing"),
        _ => panic!("went on"),
    }
    match activate(Platform::Other) {
        MuteStep::Done(Err(e)) => {
            assert_eq!(e, "output mute is not supported on this platform")
        },
        _ => panic!("went on"),
    }
}

#[test]
fn tools_are_run_and_read() {
    assert_eq!(
        read_command(Backend::Wpctl),
        vec!["wpctl", "get-volume", "@DEFAULT_AUDIO_SINK@"]
    );
    assert_eq!(
        set_command(Backend::Osascript, true),
        vec!["osascript", "-e", "set volume output muted true"]
    );
    assert_eq!(
        set_command(Backend::Pactl, false),
        vec!["pactl", "set-sink-mute", "@DEFAULT_SINK@", "0"]
    );
    assert_eq!(read_answer(Backend::Osascript, true, "true\n", ""), Ok(true));
    assert_eq!(read_answer(Backend::Osascript, true, "false\n", ""), Ok(false));
    assert_eq!(read_answer(Backend::Wpctl, true, "Volume: 0.4 [MUTED]", ""), Ok(true));
    assert_eq!(read_answer(Backend::Pactl, true, "Mute: YES", ""), Ok(true));
    assert_eq!(read_answer(Backend::Pactl, true, "静音：是", ""), Ok(true));
    assert_eq!(read_answer(Backend::Pactl, true, "Mute: no", ""), Ok(false));
    assert_eq!(
        read_answer(Backend::Wpctl, false, "", " broken \n"),
        Err("broken".to_string())
    );
    assert_eq!(set_answer(false, " x "), Err("x".to_string()));
    assert_eq!(not_run(Backend::Wpctl, true, "gone"), "wpctl get-volume failed: gone");
    assert_eq!(not_run(Backend::Osascript, false, "gone"), "set output mute failed: gone");
}

#[test]
fn session_ids_are_accepted_and_paths_are_not() {
    assert!(is_valid_session_id(&new_session_id().to_text()));
    assert!(is_valid_session_id("01234567-89AB-cdef-0123-456789abcdef"));
    assert!(!is_valid_session_id("01234567-89AB-cdef-0123-456789abcde"));
    assert!(!is_valid_session_id("../../../../../../../../etc/passwd.."));
    assert!(!is_valid_session_id("01234567089AB-cdef-0123-456789abcdef"));
    assert!(!is_valid_session_id(&"é".repeat(18)));
    assert!(is_valid_session_id(&SessionId::from_u128(0).to_text()));
}

fn provider(id: &str, url: &str) -> Provider {
    Provider {
        id: id.to_string(),
        name: id.to_string(),
        url: url.to_string(),
        api_key: Some("k".to_string()),
        notes: None,
        default: false,
    }
}

#[test]
fn engines_are_configured_or_not() {
    let none = stored_credentials("", "");
    let some = stored_credentials("https://x.test", "k");
    let list = vec![provider("p", ""), provider("q", "https://q.test")];
    assert!(asr_configured_for_provider("doubao", &none, &list));
    assert!(!asr_configured_for_provider("grok_stt", &none, &list));
    assert!(asr_configured_for_provider("grok_stt", &some, &list));
    assert!(!asr_configured_for_provider("p", &some, &list));
    assert!(asr_configured_for_provider("q", &none, &list));
    assert!(!asr_configured_for_provider("z", &some, &list));
}

#[test]
fn network_is_looked_for_where_the_engine_is() {
    let list = vec![provider("p", ""), provider("q", "https://q.test")];
    assert_eq!(check_network_url("q", &list), "https://q.test");
    assert_eq!(check_network_url("p", &list), "https://is.snssdk.com/");
    assert_eq!(check_network_url("doubao", &list), "https://is.snssdk.com/");
    assert_eq!(check_network_url("z", &list), "https://is.snssdk.com/");
    assert_eq!(network_latency(true, 12), Some(12));
    assert_eq!(network_latency(false, 12), None);
}

fn preferences(dictation: &str, modifiers: &[&str], open_app: Option<&str>) -> UserPreferences {
    UserPreferences {
        active_asr_provider: "doubao".to_string(),
        default_mode: PolishMode::Raw,
        hotkey_mode: HotkeyMode::Toggle,
        dictation_hotkey: ShortcutBinding {
            primary: dictation.to_string(),
            modifiers: modifiers.iter().map(|m| m.to_string()).collect(),
        },
        translation_hotkey: ShortcutBinding { primary: "T".to_string(), modifiers: Vec::new() },
        open_app_hotkey: open_app
            .map(|p| ShortcutBinding { primary: p.to_string(), modifiers: Vec::new() }),
        streaming_insert: true,
        record_audio_for_debug: false,
        history_retention_days: 0,
        history_max_entries: None,
        audio_recording_max_entries: None,
        chinese_script_preference: ChineseScriptPreference::Auto,
        restore_clipboard_after_paste: true,
        allow_non_tsf_insertion_fallback: true,
        windows_insertion_mode: WindowsInsertionMode::Tsf,
        paste_shortcut: PasteShortcut::CtrlV,
        mute_during_recording: false,
        microphone_device_name: String::new(),
        show_capsule: true,
    }
}

#[test]
fn shortcuts_that_differ_are_registered_anew() {
    let before = preferences("D", &["cmd"], None);
    let same = changed_shortcuts(&before, &preferences("D", &["cmd"], None));
    assert!(!same.dictation && !same.translation && !same.open_app);
    let other = changed_shortcuts(&before, &preferences("D", &["alt"], Some("O")));
    assert!(other.dictation && !other.translation && other.open_app);
}

#[test]
fn recordings_are_told_as_data_urls() {
    assert_eq!(
        recording_reply(RecordingRead::Contents(vec![1, 2, 3, 250])),
        "{\"data\":\"data:audio/wav;base64,AQID+g==\"}"
    );
    assert_eq!(
        recording_reply(RecordingRead::Contents(vec![255, 255])),
        "{\"data\":\"data:audio/wav;base64,//8=\"}"
    );
    assert_eq!(
        recording_reply(RecordingRead::NotFound),
        "{\"error\":\"recording not found\"}"
    );
    assert_eq!(
        recording_reply(RecordingRead::Failed("x".to_string())),
        "{\"error\":\"read wav failed: x\"}"
    );
    assert_eq!(
        recording_reply(RecordingRead::NoPlace("HOME not set".to_string())),
        "{\"error\":\"HOME not set\"}"
    );
    assert_eq!(invalid_session_reply(), "{\"error\":\"invalid session id\"}");
}

#[test]
fn recordings_give_their_samples() {
    let mut wav = vec![0u8; 44];
    wav.push(9);
    assert_eq!(recording_samples(RecordingRead::Contents(wav)), Ok(vec![9]));
    assert_eq!(
        recording_samples(RecordingRead::Contents(vec![0u8; 44])),
        Err("recording is empty or corrupt".to_string())
    );
    assert_eq!(
        recording_samples(RecordingRead::NotFound),
        Err("recording not found".to_string())
    );
    assert_eq!(
        recording_samples(RecordingRead::Failed("x".to_string())),
        Err("read wav failed: x".to_string())
    );
    assert_eq!(
        recording_samples(RecordingRead::NoPlace("x".to_string())),
        Err("x".to_string())
    );
}

#[test]
fn copies_are_refused_with_a_number() {
    let id = SessionId::from_u128(1).to_text();
    assert_eq!(export_refusal(true, "x", "/tmp/a"), Some(2));
    assert_eq!(export_refusal(true, &id, ""), Some(4));
    assert_eq!(export_refusal(true, &id, "/tmp/a"), None);
    assert_eq!(export_refusal(false, &id, "/tmp/a"), Some(1));
    assert_eq!(export_refusal(false, "x", ""), Some(1));
    assert_eq!(export_code(ExportOutcome::Copied), 0);
    assert_eq!(export_code(ExportOutcome::NotFound), 3);
    assert_eq!(export_code(ExportOutcome::Failed), 4);
    assert_eq!(done_reply(Ok(())), "{\"ok\":true}");
    assert_eq!(done_reply(Err("x".to_string())), "{\"error\":\"x\"}");
    assert_eq!(error_reply("x"), "{\"error\":\"x\"}");
    assert_eq!(error_reply("C:\\a \"b\""), "{\"error\":\"C:\\\\a \\\"b\\\"\"}");
    assert_eq!(
        export_error_log_reply("/l", None),
        "{\"error\":\"日志文件不存在：/l\"}"
    );
    assert_eq!(export_error_log_reply("/l", Some(Ok(()))), "{\"ok\":true}");
    assert_eq!(
        export_error_log_reply("/l", Some(Err("x".to_string()))),
        "{\"error\":\"复制日志失败：x\"}"
    );
}

#[test]
fn providers_are_told_as_json() {
    let fields = parse_provider_fields("{\"name\":\"n\",\"apiKey\":\"k\",\"url\":3}").unwrap();
    assert_eq!(fields.id, "");
    assert_eq!(fields.name, "n");
    assert_eq!(fields.url, "");
    assert_eq!(fields.api_key.as_deref(), Some("k"));
    assert_eq!(fields.notes, None);
    assert_eq!(parse_provider_fields("{").unwrap_err(), "参数解析失败");
    assert_eq!(provider_fields(&Json::Null).name, "");
    let mut active = "doubao".to_string();
    assert!(!adopt_default_provider(&mut active, "doubao"));
    assert!(adopt_default_provider(&mut active, "p"));
    assert_eq!(active, "p");
}

#[test]
fn providers_and_engines_are_tried_out() {
    let list = vec![provider("p", " "), provider("q", " https://q.test/ "), provider("e", "")];
    assert!(matches!(test_provider_plan("builtin-doubao", &list), ProbePlan::OpenBuiltin));
    match test_provider_plan("z", &list) {
        ProbePlan::Fails(e) => assert_eq!(e, "供应商不存在"),
        _ => panic!("tried out"),
    }
    match test_provider_plan("p", &list) {
        ProbePlan::Fails(e) => assert_eq!(e, "请先填写 URL"),
        _ => panic!("tried out"),
    }
    match test_provider_plan("q", &list) {
        ProbePlan::Get { url, api_key } => {
            assert_eq!(url, " https://q.test/ /v1/models");
            assert_eq!(api_key.as_deref(), Some("k"));
        },
        _ => panic!("not tried out"),
    }
    match test_engine_plan("q", &list) {
        ProbePlan::Get { url, api_key } => {
            assert_eq!(url, "https://q.test");
            assert_eq!(api_key, None);
        },
        _ => panic!("not tried out"),
    }
    match test_engine_plan("e", &list) {
        ProbePlan::Fails(e) => assert_eq!(e, "供应商未配置 URL"),
        _ => panic!("tried out"),
    }
    match test_engine_plan("z", &list) {
        ProbePlan::Fails(e) => assert_eq!(e, "未找到当前 ASR 供应商"),
        _ => panic!("tried out"),
    }
    assert!(matches!(test_engine_plan("doubao", &list), ProbePlan::OpenBuiltin));
    assert!(test_engine_outcome(Ok(())).is_ok());
    assert_eq!(test_engine_outcome(Err("x".to_string())).unwrap_err(), "连接失败：x");
}

#[test]
fn microphone_changes_are_not_told_too_often() {
    let mut watch = DeviceWatch::new(1_000);
    assert!(watch.changed());
    assert!(!watch.changed());
    assert!(!watch.passed_on(1_299));
    assert!(watch.changed());
    assert!(watch.passed_on(1_300));
    assert!(watch.changed());
    assert!(!watch.passed_on(1_400));
    assert!(watch.changed());
    watch.dropped();
    assert!(watch.changed());
}

#[test]
fn texts_are_handled_by_character() {
    assert_eq!(trim("\u{3000} a b \n"), "a b");
    assert!(is_blank(" \t\u{a0}"));
    assert!(starts_with("你好", "你"));
    assert!(ends_with("你好", "好"));
    assert!(contains("abc", "bc"));
    assert!(!contains("abc", "cb"));
    assert_eq!(decimal_text(0), "0");
    assert_eq!(decimal_text(u64::MAX), "18446744073709551615");
    assert_eq!(signed_decimal_text(i64::MIN), "-9223372036854775808");
    assert_eq!(trim_trailing("a//", '/'), "a");
    assert_eq!(first_n_chars("你好", 1), "你");
    assert_eq!(join_all(&["a".to_string(), "b".to_string()], "-"), "a-b");
    assert_eq!(lower_ascii("ÀB"), "Àb");
    assert!(eq_ignore_ascii_case("Deny", "dENY"));
    assert_eq!(replace_char("a\\b", '\\', '#'), "a#b");
}

#[test]
fn json_is_read() {
    let v = parse_json("{\"a\":[{\"k\":\"deep\"}],\"b\":true,\"n\":-3}").ok().unwrap();
    assert_eq!(find_string_recursive(&v, "k").as_deref(), Some("deep"));
    assert_eq!(v.get_bool("b"), Some(true));
    assert_eq!(v.get_str("b"), None);
    assert!(matches!(v.get("n"), Some(Json::Int(-3))));
    assert!(parse_json("{").is_err());
}

#[test]
fn simple_ids_have_no_hyphens() {
    let id = new_simple_id();
    assert_eq!(id.len(), 32);
    assert!(!id.contains('-'));
    assert_ne!(id, new_simple_id());
}

#[test]
fn capsule_states_have_names() {
    assert_eq!(capsule_state_log_name(CapsuleState::Polishing), "polishing");
    assert_eq!(capsule_state_log_name(CapsuleState::Error), "error");
}

#[test]
fn outcomes_are_told_as_json() {
    assert_eq!(outcome_payload(&Ok(())), r#"{"error":null,"ok":true}"#);
    assert_eq!(outcome_payload(&Err("坏了".to_string())), r#"{"error":"坏了","ok":false}"#);
    assert_eq!(provider_test_payload("p1", &Ok(())), r#"{"error":null,"id":"p1","ok":true}"#);
    assert_eq!(
        provider_test_payload("p1", &Err("401".to_string())),
        r#"{"error":"401","id":"p1","ok":false}"#
    );
    let broken = EngineStatus { ok: false, error: Some("超时".to_string()) };
    assert_eq!(engine_status_payload(&broken), r#"{"error":"超时","ok":false}"#);
    let well = EngineStatus { ok: true, error: None };
    assert_eq!(engine_status_payload(&well), r#"{"error":null,"ok":true}"#);
    assert_eq!(network_payload(true, 42), r#"{"latencyMs":42,"online":true}"#);
    assert_eq!(network_payload(false, 42), r#"{"latencyMs":null,"online":false}"#);
    assert_eq!(
        credentials_payload("grok", false),
        r#"{"activeAsrProvider":"grok","asrConfigured":false}"#
    );
    assert_eq!(
        retranscribe_error_payload("s1", "无录音"),
        r#"{"error":"无录音","id":"s1"}"#
    );
}

#[test]
fn text_in_json_is_escaped() {
    let text = "a\"b\\c\nd\te\rf\u{8}g\u{c}h\u{1}i\u{1f}j\u{7f}/准";
    let payload = partial_text_payload(text);
    assert_eq!(
        payload,
        "{\"text\":\"a\\\"b\\\\c\\nd\\te\\rf\\bg\\fh\\u0001i\\u001fj\u{7f}/准\"}"
    );
    let value = parse_json(&payload).expect("valid json");
    assert_eq!(value.get_str("text"), Some(text));
}
