use zhunji::coordinator::asr_wiring::{
    apply_chinese_script_preference, build_qa_asr_start, choose_engine, ensure_asr_credentials,
    ensure_microphone_permission, is_builtin_doubao, microphone_answer, migrate_doubao_prefs,
    script_applied, warmup_engine, MicrophoneGate,
};
use zhunji::coordinator::resources::Engine;
use zhunji::permissions::PermissionStatus;
use zhunji::providers::{
    add_provider, find_provider, list_providers, remove_provider, set_default_provider,
    test_outcome, test_url, update_provider, Provider,
};
use zhunji::types::{ChineseScriptPreference, Platform, PolishMode};

fn provider(id: &str, url: &str) -> Provider {
    Provider {
        id: id.to_string(),
        name: format!("name of {id}"),
        url: url.to_string(),
        api_key: None,
        notes: None,
        default: false,
    }
}

#[test]
fn builtin_engine_is_always_listed() {
    let list = list_providers(Vec::new());
    assert_eq!(list.len(), 1);
    assert_eq!(list[0].id, "builtin-doubao");
    assert_eq!(list[0].name, "豆包 IME");
    assert!(list[0].default);
    let list = list_providers(vec![provider("p", "")]);
    assert_eq!(list.len(), 2);
    assert!(!list[0].default);
    let again = list_providers(list);
    assert_eq!(again.len(), 2);
}

#[test]
fn providers_are_added_under_a_new_id() {
    let mut list: Vec<Provider> = Vec::new();
    let p = add_provider(
        &mut list,
        "n".to_string(),
        "u".to_string(),
        Some(String::new()),
        Some("notes".to_string()),
    );
    assert_eq!(p.id.len(), 36);
    assert_eq!(p.api_key, None);
    assert_eq!(p.notes.as_deref(), Some("notes"));
    assert_eq!(list.len(), 1);
    assert_eq!(list[0].id, p.id);
}

#[test]
fn providers_are_changed_and_removed() {
    let mut list = list_providers(vec![provider("p", "")]);
    let changed = update_provider(
        &mut list,
        "p",
        "new".to_string(),
        "https://x.test".to_string(),
        Some("k".to_string()),
        None,
    );
    assert!(changed.is_ok());
    assert_eq!(find_provider(&list, "p").unwrap().name, "new");
    assert_eq!(
        update_provider(&mut list, "z", String::new(), String::new(), None, None).unwrap_err(),
        "供应商不存在"
    );
    assert_eq!(
        remove_provider(&mut list, "builtin-doubao").unwrap_err(),
        "内置豆包引擎不可删除"
    );
    assert!(set_default_provider(&mut list, "p").is_ok());
    assert!(list[1].default);
    assert!(!list[0].default);
    assert!(remove_provider(&mut list, "p").is_ok());
    assert_eq!(list.len(), 1);
    assert!(list[0].default);
    assert_eq!(set_default_provider(&mut list, "p").unwrap_err(), "供应商不存在");
}

#[test]
fn providers_are_tried_out_by_their_models() {
    assert_eq!(test_url(&provider("p", "")).unwrap_err(), "请先填写 URL");
    assert_eq!(
        test_url(&provider("p", "https://x.test//")).unwrap(),
        "https://x.test/v1/models"
    );
    assert!(test_outcome(Ok((true, "200 OK".to_string()))).is_ok());
    assert_eq!(
        test_outcome(Ok((false, "404 Not Found".to_string()))).unwrap_err(),
        "返回 404 Not Found"
    );
    assert_eq!(test_outcome(Err("lost".to_string())).unwrap_err(), "网络错误: lost");
}

#[test]
fn engines_need_what_they_need() {
    let list = vec![provider("p", ""), provider("q", "https://x.test")];
    assert!(ensure_asr_credentials(&list, "doubao").is_ok());
    assert!(ensure_asr_credentials(&list, "q").is_ok());
    assert_eq!(
        ensure_asr_credentials(&list, "p").unwrap_err(),
        "供应商「name of p」未配置 URL"
    );
    assert_eq!(
        ensure_asr_credentials(&list, "z").unwrap_err(),
        "未找到语音引擎「z」，请在供应商页面添加"
    );
    assert!(is_builtin_doubao("builtin-doubao"));
}

#[test]
fn engine_is_chosen_with_its_label_and_credentials() {
    let mut mine = provider("q", "https://x.test");
    mine.api_key = Some("k".to_string());
    let list = vec![mine];
    let choice = choose_engine(&list, "builtin-doubao").unwrap();
    assert_eq!(choice.engine, Engine::Doubao);
    assert_eq!(choice.label.provider, "豆包 IME");
    let choice = choose_engine(&list, "q").unwrap();
    assert_eq!(choice.engine, Engine::GrokStt);
    assert_eq!(choice.label.provider, "name of q");
    assert_eq!(choice.credentials, Some(("https://x.test".to_string(), "k".to_string())));
    assert!(choose_engine(&list, "z").is_none());
    assert_eq!(warmup_engine(&list, "q"), Engine::GrokStt);
    assert_eq!(warmup_engine(&list, "doubao"), Engine::Doubao);
    let start = build_qa_asr_start(&list, "q");
    assert_eq!(start.engine, Engine::GrokStt);
    assert_eq!(start.label.provider, "grok_stt");
    assert_eq!(build_qa_asr_start(&list, "doubao").label.provider, "doubao");
    let listed = vec![provider("builtin-doubao", "")];
    assert_eq!(warmup_engine(&listed, "builtin-doubao"), Engine::Doubao);
    let start = build_qa_asr_start(&listed, "builtin-doubao");
    assert_eq!(start.engine, Engine::Doubao);
    assert_eq!(start.label.provider, "doubao");
    assert!(start.credentials.is_none());
}

#[test]
fn preferences_are_brought_up_to_date_once() {
    let list = vec![provider("q", "")];
    let m = migrate_doubao_prefs(&list, "gone", PolishMode::Light);
    assert_eq!(m.active_asr_provider, "doubao");
    assert_eq!(m.default_mode, PolishMode::Raw);
    assert!(m.changed);
    let again = migrate_doubao_prefs(&list, &m.active_asr_provider, m.default_mode);
    assert!(!again.changed);
    assert!(!migrate_doubao_prefs(&list, "q", PolishMode::Raw).changed);
    assert_eq!(migrate_doubao_prefs(&list, "grok_stt", PolishMode::Raw).active_asr_provider, "grok_stt");
}

#[test]
fn text_is_written_in_the_preferred_script() {
    assert_eq!(
        apply_chinese_script_preference("学习", ChineseScriptPreference::Traditional),
        "學習"
    );
    assert_eq!(
        apply_chinese_script_preference("繁體", ChineseScriptPreference::Simplified),
        "繁体"
    );
    assert_eq!(apply_chinese_script_preference("繁體", ChineseScriptPreference::Auto), "繁體");
    assert_eq!(script_applied("a", ChineseScriptPreference::Simplified, None), "a");
    assert_eq!(
        script_applied("a", ChineseScriptPreference::Simplified, Some("b".to_string())),
        "b"
    );
}

#[test]
fn microphone_decides_whether_a_session_records() {
    let gate = |platform, denied, device, status| {
        ensure_microphone_permission(platform, denied, device, status)
    };
    assert!(matches!(
        gate(Platform::Windows, false, true, PermissionStatus::Denied),
        MicrophoneGate::Open
    ));
    match gate(Platform::Windows, true, true, PermissionStatus::Granted) {
        MicrophoneGate::Closed(m) => assert_eq!(m, "需要麦克风权限，当前状态: Denied"),
        _ => panic!("open"),
    }
    match gate(Platform::Macos, false, true, PermissionStatus::NoDevice) {
        MicrophoneGate::Closed(m) => assert_eq!(m, "未检测到麦克风，请连接麦克风后重试"),
        _ => panic!("open"),
    }
    assert!(matches!(
        gate(Platform::Macos, false, true, PermissionStatus::NotDetermined),
        MicrophoneGate::Ask
    ));
    assert!(microphone_answer(PermissionStatus::Granted).is_ok());
    assert_eq!(
        microphone_answer(PermissionStatus::Restricted).unwrap_err(),
        "需要麦克风权限，当前状态: Restricted"
    );
}
