use zhunji::asr::doubao::{
    connect_step, disconnect_completions, ensure_credentials_step, finish_session_message,
    handle_binary, is_doubao, is_quota_error, new_device_ids, open_session_step, register_body,
    register_outcome, register_query, request_stub, start_session_message, start_session_payload,
    start_task_message, token_outcome, token_query, upper_hex_text, wait_outcome, ws_url,
    ConnectStep, CredentialAction, CredentialEvent, DeviceIds, DoubaoError, DoubaoImeCredentials,
    OpenAction, OpenStage, SyncState, WaitResult, Waiter,
};
use zhunji::asr::doubao_proto::{
    decode_response, decode_string, decode_varint, encode_request, encode_string, encode_varint,
    field_tag, skip_field,
};
use zhunji::asr::grok_stt;
use zhunji::asr::recognized::{append_segment, extract_text_candidate, merge_recognized_text};
use zhunji::json::parse_json;

#[test]
fn varint_roundtrip_small() {
    let mut out: Vec<u8> = Vec::new();
    encode_varint(&mut out, 0);
    assert_eq!(out, vec![0]);
    let mut out: Vec<u8> = Vec::new();
    encode_varint(&mut out, 150);
    assert_eq!(out, vec![0x96, 0x01]);
    let mut cursor: usize = 0;
    assert_eq!(decode_varint(&out, &mut cursor), Some(150));
}

#[test]
fn varint_roundtrip_large() {
    let long = "豆".repeat(43);
    let mut out: Vec<u8> = Vec::new();
    encode_string(&mut out, 2, &long);
    let cursor: usize = 0;
    let decoded = decode_response(&out).unwrap_or_default();
    assert!(decoded.request_id.is_empty());
    let mut c: usize = cursor;
    let _tag = decode_varint(&out, &mut c).unwrap();
    let s = decode_string(&out, &mut c).unwrap();
    assert_eq!(s, long);
}

#[test]
fn encode_decode_roundtrip() {
    let req = encode_request(
        "token-token",
        "StartTask",
        "",
        &[0x9C, 0x80, 0x01],
        "req-123",
        0,
    );
    assert_eq!(req[0], 0x12);
    assert_eq!(&req[2..2 + 11], b"token-token");

    let mut resp: Vec<u8> = Vec::new();
    encode_string(&mut resp, 1, "req-123");
    encode_string(&mut resp, 4, "TaskStarted");
    encode_string(&mut resp, 6, "ok");
    let parsed = decode_response(&resp).unwrap();
    assert_eq!(parsed.request_id, "req-123");
    assert_eq!(parsed.message_type, "TaskStarted");
    assert_eq!(parsed.status_message, "ok");
}

#[test]
fn every_number_survives_its_varint() {
    for v in [0u64, 1, 127, 128, 300, 16_383, 16_384, u64::MAX] {
        let mut out: Vec<u8> = Vec::new();
        encode_varint(&mut out, v);
        let mut cursor: usize = 0;
        assert_eq!(decode_varint(&out, &mut cursor), Some(v));
        assert_eq!(cursor, out.len());
    }
}

#[test]
fn every_status_code_survives_its_field() {
    for code in [0i32, 1, 127, 128, 50_700_000, i32::MAX, -1, i32::MIN] {
        let mut resp: Vec<u8> = Vec::new();
        encode_string(&mut resp, 1, "req-1");
        encode_varint(&mut resp, 5 << 3);
        encode_varint(&mut resp, code as u32 as u64);
        encode_string(&mut resp, 6, "busy");
        let parsed = decode_response(&resp).unwrap();
        assert_eq!(parsed.request_id, "req-1");
        assert_eq!(parsed.status_code, code);
        assert_eq!(parsed.status_message, "busy");
    }
}

#[test]
fn unknown_fields_are_skipped() {
    let mut resp: Vec<u8> = Vec::new();
    encode_string(&mut resp, 1, "req-1");
    encode_string(&mut resp, 9, "later");
    field_tag(&mut resp, 12, 0);
    encode_varint(&mut resp, 300);
    encode_string(&mut resp, 4, "TaskStarted");
    let parsed = decode_response(&resp).unwrap();
    assert_eq!(parsed.request_id, "req-1");
    assert_eq!(parsed.message_type, "TaskStarted");
    assert_eq!(parsed.status_code, 0);
}

#[test]
fn nothing_is_read_behind_the_end() {
    let data = [0x05u8, 0x41];
    let mut cursor: usize = 3;
    assert_eq!(decode_varint(&data, &mut cursor), None);
    assert_eq!(decode_string(&data, &mut cursor), None);
    for wire_type in 0u64..6 {
        assert_eq!(skip_field(&data, &mut cursor, wire_type), None);
    }
    assert_eq!(cursor, 3);
    let mut cursor: usize = usize::MAX;
    assert_eq!(decode_varint(&data, &mut cursor), None);
    assert_eq!(skip_field(&data, &mut cursor, 1), None);
    assert_eq!(cursor, usize::MAX);
}

#[test]
fn tag_holds_the_number_above_the_wire_type() {
    let mut out: Vec<u8> = Vec::new();
    field_tag(&mut out, 5, 2);
    assert_eq!(out, vec![42]);
    let mut out: Vec<u8> = Vec::new();
    field_tag(&mut out, 1, 12);
    assert_eq!(out, vec![12]);
}

#[test]
fn stored_grok_credentials_are_read_back_trimmed() {
    let stored = grok_stt::stored_credentials(" https://x.test ", "\tk\n");
    let read = grok_stt::loaded_credentials(Some(stored));
    assert_eq!(read.endpoint, "https://x.test");
    assert_eq!(read.api_key, "k");
    assert!(read.configured());
    let none = grok_stt::loaded_credentials(None);
    assert_eq!(none.endpoint, "");
    assert_eq!(none.api_key, "");
    assert!(!none.configured());
}

#[test]
fn text_merged_in_twice_counts_once() {
    let once = merge_recognized_text("今天天气", "天气很好");
    assert_eq!(once, "今天天气很好");
    assert_eq!(merge_recognized_text(&once, "天气很好"), once);
    let apart = merge_recognized_text("hello", "world");
    assert_eq!(merge_recognized_text(&apart, "world"), apart);
    assert_eq!(merge_recognized_text(&merge_recognized_text("甲", "乙"), "乙"), "甲 乙 乙");
}

#[test]
fn broken_messages_are_refused() {
    let mut cursor: usize = 0;
    assert_eq!(decode_varint(&[0x80], &mut cursor), None);
    assert!(decode_response(&[0x0a, 0x05, b'a']).is_none());
    let mut cursor: usize = 0;
    assert_eq!(skip_field(&[0u8; 4], &mut cursor, 5), Some(()));
    assert_eq!(cursor, 4);
    let mut cursor: usize = 0;
    assert_eq!(skip_field(&[0u8; 4], &mut cursor, 3), None);
}

#[test]
fn text_that_is_not_utf8_is_refused() {
    let mut cursor: usize = 0;
    assert_eq!(decode_string(&[1, 0xff], &mut cursor), None);
    let mut cursor: usize = 0;
    assert_eq!(decode_string(&[1, b'a'], &mut cursor).as_deref(), Some("a"));
}

#[test]
fn session_messages_name_their_step() {
    assert_eq!(
        start_task_message("t", "r"),
        encode_request("t", "StartTask", "", &[], "r", 0)
    );
    assert_eq!(
        start_session_message("t", "d", "r"),
        encode_request("t", "StartSession", &start_session_payload("d"), &[], "r", 0)
    );
    assert_eq!(
        finish_session_message("t", "r"),
        encode_request("t", "FinishSession", "", &[], "r", 0)
    );
    assert!(parse_json(&start_session_payload("77")).is_ok());
    assert!(start_session_payload("77").contains("\"did\":\"77\""));
}

#[test]
fn addresses_carry_the_device() {
    assert!(register_query(1234, "abc").contains("&_rticket=1234&cdid=abc&channel=official"));
    assert!(token_query("9", "abc").ends_with("&device_id=9&cdid=abc"));
    assert_eq!(
        ws_url("9"),
        "wss://frontier-audio-ime-ws.doubao.com/ocean/api/v1/ws?aid=401734&device_id=9"
    );
}

#[test]
fn device_ids_are_hexadecimal_and_random() {
    let a = new_device_ids();
    let b = new_device_ids();
    assert_eq!(a.cdid.len(), 32);
    assert_eq!(a.openudid.len(), 16);
    assert_eq!(a.clientudid.len(), 32);
    assert!(a.cdid.chars().all(|c| matches!(c, '0'..='9' | 'a'..='f')));
    assert_ne!(a.cdid, b.cdid);
}

#[test]
fn request_bodies_have_an_md5_checksum() {
    assert_eq!(request_stub(""), "D41D8CD98F00B204E9800998ECF8427E");
    assert_eq!(request_stub("hello"), "5D41402ABC4B2A76B9719D911017C592");
    assert_eq!(upper_hex_text(&[0x0f, 0xa0]), "0FA0");
}

#[test]
fn registration_reply_gives_the_device() {
    assert_eq!(register_outcome(true, "200", "{\"device_id\":12}").ok().as_deref(), Some("12"));
    match register_outcome(true, "200", "{\"device_id\":0}") {
        Err(DoubaoError::Register(m)) => assert_eq!(m, "响应缺少 device_id"),
        _ => panic!("no device"),
    }
    match register_outcome(false, "500", "oops") {
        Err(DoubaoError::Register(m)) => assert_eq!(m, "HTTP 500 oops"),
        _ => panic!("no success"),
    }
    match register_outcome(true, "200", "nonsense") {
        Err(DoubaoError::Register(m)) => assert!(m.starts_with("响应解析失败: ")),
        _ => panic!("no reply"),
    }
}

#[test]
fn settings_reply_gives_the_token() {
    let reply = "{\"data\":{\"settings\":[{\"app_key\":\"k1\"}]}}";
    assert_eq!(token_outcome(true, "200", reply).ok().as_deref(), Some("k1"));
    match token_outcome(true, "200", "{}") {
        Err(DoubaoError::Token(m)) => assert_eq!(m, "响应缺少 app_key: {}"),
        _ => panic!("no token"),
    }
    match token_outcome(false, "403", "no") {
        Err(DoubaoError::Token(m)) => assert_eq!(m, "HTTP 403 no"),
        _ => panic!("no success"),
    }
    match token_outcome(true, "200", "[") {
        Err(DoubaoError::Token(m)) => {
            assert!(m.starts_with("响应解析失败: "));
            assert!(m.ends_with(": ["));
        },
        _ => panic!("no reply"),
    }
}

fn credentials(device_id: &str, cdid: &str, token: &str) -> DoubaoImeCredentials {
    DoubaoImeCredentials {
        device_id: device_id.to_string(),
        cdid: cdid.to_string(),
        token: token.to_string(),
    }
}

#[test]
fn credentials_come_from_memory_then_the_cache_then_a_registration() {
    let mut have = credentials("1", "2", "3");
    assert!(matches!(
        ensure_credentials_step(&mut have, CredentialEvent::Start),
        CredentialAction::Ready
    ));
    let mut have = credentials("", "", "");
    assert!(matches!(
        ensure_credentials_step(&mut have, CredentialEvent::Start),
        CredentialAction::ReadCache
    ));
    let half = CredentialEvent::CacheRead(Some(credentials("1", "", "3")));
    assert!(matches!(ensure_credentials_step(&mut have, half), CredentialAction::Register));
    let registered = CredentialEvent::Registered(Ok(("1".to_string(), "2".to_string())));
    match ensure_credentials_step(&mut have, registered) {
        CredentialAction::FetchToken { device_id, cdid } => {
            assert_eq!((device_id.as_str(), cdid.as_str()), ("1", "2"))
        },
        _ => panic!("no token asked for"),
    }
    let fetched = CredentialEvent::TokenFetched {
        device_id: "1".to_string(),
        cdid: "2".to_string(),
        token: Ok("3".to_string()),
    };
    assert!(matches!(ensure_credentials_step(&mut have, fetched), CredentialAction::SaveCache));
    assert!(have.auth_ok());
}

#[test]
fn failed_handshake_is_tried_once_more_on_a_new_connection() {
    let (stage, action) = open_session_step(OpenStage::Credentials, true, Ok(()));
    assert_eq!(stage, OpenStage::Handshaking);
    assert!(matches!(action, OpenAction::Handshake));
    let lost = Err(DoubaoError::Transport("gone".to_string()));
    let (stage, action) = open_session_step(stage, true, lost);
    assert_eq!(stage, OpenStage::Reconnecting);
    assert!(matches!(action, OpenAction::Reconnect));
    let (stage, _) = open_session_step(stage, true, Ok(()));
    assert_eq!(stage, OpenStage::HandshakingAgain);
    let lost = Err(DoubaoError::Transport("gone".to_string()));
    let (stage, action) = open_session_step(stage, true, lost);
    assert_eq!(stage, OpenStage::Finished);
    assert!(matches!(action, OpenAction::Fail(_)));
}

#[test]
fn too_many_sessions_are_not_tried_again() {
    let e = DoubaoError::Session("豆包免费通道并发已达上限 (status=40200011)".to_string());
    assert!(is_quota_error(&e));
    let (stage, action) = open_session_step(OpenStage::Handshaking, true, Err(e));
    assert_eq!(stage, OpenStage::Finished);
    assert!(matches!(action, OpenAction::Fail(_)));
}

#[test]
fn one_caller_connects_and_others_wait() {
    let mut connecting = false;
    assert!(matches!(connect_step(false, &mut connecting, false), ConnectStep::Connect));
    assert!(connecting);
    assert!(matches!(connect_step(false, &mut connecting, false), ConnectStep::Wait));
    assert!(matches!(connect_step(true, &mut connecting, false), ConnectStep::Ready));
    match connect_step(false, &mut connecting, true) {
        ConnectStep::Fail(e) => assert!(e.message().contains("连接建立超时(3s)")),
        _ => panic!("waited too long"),
    }
}

#[test]
fn waiting_ends_with_a_reply_a_loss_or_the_time() {
    assert_eq!(
        wait_outcome("k", WaitResult::Reply(Ok("t".to_string()))).ok().as_deref(),
        Some("t")
    );
    assert!(matches!(
        wait_outcome("k", WaitResult::Reply(Err("e".to_string()))),
        Err(DoubaoError::Session(_))
    ));
    assert!(matches!(
        wait_outcome("k", WaitResult::Closed),
        Err(DoubaoError::Transport(_))
    ));
    match wait_outcome("k", WaitResult::TimedOut) {
        Err(DoubaoError::Timeout(m)) => assert_eq!(m, "k"),
        _ => panic!("no time limit"),
    }
}

#[test]
fn audio_goes_out_in_frames() {
    let mut state = SyncState::default();
    state.begin_handshake("req".to_string(), 1000);
    state.push_pcm(false, &[1, 0]);
    assert!(state.pending.is_empty());
    state.push_pcm(true, &[1, 0, 0xff, 0xff, 9]);
    assert_eq!(state.pending, vec![1i16, -1]);
    assert!(state.next_frame().is_none());
    state.encoder_ready = true;
    state.push_pcm(true, &vec![0u8; 640]);
    let frame = state.next_frame().unwrap();
    assert_eq!(frame.len(), 320);
    assert_eq!(frame[1], -1);
    assert_eq!(state.pending.len(), 2);
    let first = state.frame_message(&[7], false);
    assert_eq!(
        first,
        encode_request(
            "",
            "TaskRequest",
            "{\"extra\":{},\"timestamp_ms\":1000}",
            &[7],
            "req",
            1
        )
    );
    let last = state.last_frame().ok().unwrap().unwrap();
    assert_eq!(last.len(), 320);
    assert_eq!(&last[..3], &[0i16, 0, 0]);
    let message = state.frame_message(&[8], true);
    assert_eq!(
        message,
        encode_request(
            "",
            "TaskRequest",
            "{\"extra\":{},\"timestamp_ms\":1020}",
            &[8],
            "req",
            9
        )
    );
    assert_eq!(state.session_duration_ms(1500), 500);
}

#[test]
fn no_last_frame_without_audio() {
    let mut state = SyncState::default();
    assert!(matches!(state.last_frame(), Ok(None)));
    state.push_pcm(true, &[1, 0]);
    assert!(matches!(state.last_frame(), Err(DoubaoError::Opus(_))));
}

fn response(message_type: &str, status_message: &str, result_json: &str) -> Vec<u8> {
    let mut out: Vec<u8> = Vec::new();
    encode_string(&mut out, 4, message_type);
    encode_string(&mut out, 6, status_message);
    encode_string(&mut out, 7, result_json);
    out
}

#[test]
fn results_are_shown_and_then_gathered() {
    let mut state = SyncState::default();
    let interim = "{\"results\":[{\"text\":\"你\",\"is_interim\":true}]}";
    let outcome = handle_binary(&mut state, &response("Result", "", interim));
    assert_eq!(outcome.partial.as_deref(), Some("你"));
    let done =
        "{\"results\":[{\"text\":\"你好\",\"is_interim\":false,\"is_vad_finished\":true}]}";
    let outcome = handle_binary(&mut state, &response("Result", "", done));
    assert_eq!(outcome.partial, None);
    handle_binary(&mut state, &response("Result", "", done));
    assert_eq!(state.final_accumulator, "你好");
    let outcome = handle_binary(&mut state, &response("SessionFinished", "", ""));
    assert_eq!(outcome.completions.len(), 1);
    assert_eq!(outcome.completions[0].waiter, Waiter::SessionFinished);
    assert_eq!(outcome.completions[0].value, Ok("你好".to_string()));
}

#[test]
fn failures_reach_everyone_who_waits() {
    let mut state = SyncState::default();
    let outcome = handle_binary(&mut state, &response("TaskFailed", "bad token", ""));
    assert_eq!(outcome.completions.len(), 4);
    for c in &outcome.completions {
        assert_eq!(c.value, Err("bad token".to_string()));
    }
    assert_eq!(disconnect_completions().len(), 3);
    let outcome = handle_binary(&mut state, &[0xff]);
    assert!(outcome.completions.is_empty());
}

#[test]
fn words_do_not_run_together() {
    assert_eq!(append_segment("hello", "world"), "hello world");
    assert_eq!(append_segment("hello.", "World"), "hello. World");
    assert_eq!(append_segment("hello", "!"), "hello!");
    assert_eq!(append_segment("", "a"), "a");
    assert_eq!(append_segment("a", ""), "a");
}

#[test]
fn recognised_texts_are_merged() {
    assert_eq!(merge_recognized_text("今天天气", "今天天气很好"), "今天天气很好");
    assert_eq!(merge_recognized_text("今天天气很好", "今天"), "今天天气很好");
    assert_eq!(merge_recognized_text("abcd。", "。efgh"), "abcd。。efgh");
    assert_eq!(merge_recognized_text("we met at noon", "at noon we ate"), "we met at noon we ate");
}

#[test]
fn text_is_picked_out_of_a_result() {
    let two = "{\"results\":[{\"text\":\"one\"},{\"text\":\"two\",\"extra\":{\"nonstream_result\":true}}]}";
    assert_eq!(extract_text_candidate(two), Some(("one two".to_string(), true)));
    assert_eq!(extract_text_candidate("{\"results\":[]}"), None);
    assert_eq!(extract_text_candidate("nonsense"), None);
}

#[test]
fn grok_needs_an_address_and_a_key() {
    let none = grok_stt::GrokSttCredentials::default();
    assert!(!none.configured());
    match grok_stt::credentials(&none) {
        Err(e) => assert!(e.message().contains("端点(baseURL)")),
        Ok(_) => panic!("no address"),
    }
    let half = grok_stt::stored_credentials(" https://x.test ", " ");
    match grok_stt::check_credentials(&half) {
        Err(e) => assert!(e.message().contains("API Key")),
        Ok(_) => panic!("no key"),
    }
    let all = grok_stt::stored_credentials(" https://x.test ", " k ");
    assert_eq!(
        grok_stt::credentials(&all).ok(),
        Some(("https://x.test".to_string(), "k".to_string()))
    );
}

#[test]
fn grok_sends_the_recording_in_one_request() {
    let mut state = grok_stt::SyncState::default();
    state.open_session();
    state.consume_pcm_chunk(&[1, 2]);
    state.consume_pcm_chunk(&[3, 4]);
    let pcm = match state.send_last_frame() {
        grok_stt::LastFrame::Send(pcm) => pcm,
        grok_stt::LastFrame::Empty => panic!("nothing was recorded"),
    };
    let terms = vec!["甲".to_string(), "乙".to_string()];
    let request = grok_stt::transcription_request("https://x.test//", &pcm, &terms);
    assert_eq!(request.url, "https://x.test/v1/audio/transcriptions");
    let fields: Vec<(&str, &str)> =
        request.fields.iter().map(|f| (f.name.as_str(), f.value.as_str())).collect();
    assert_eq!(
        fields,
        vec![
            ("keyterm", "甲"),
            ("keyterm", "乙"),
            ("prompt", "甲, 乙"),
            ("model", "grok-stt"),
        ]
    );
    let plain = grok_stt::transcription_request("https://x.test", &pcm, &[]);
    assert_eq!(plain.fields.len(), 1);
    assert_eq!(plain.fields[0].name, "model");
    assert_eq!(request.wav.len(), 48);
    assert!(state.take_result().is_ok());
    assert!(state.take_result().is_err());
    assert!(matches!(state.send_last_frame(), grok_stt::LastFrame::Empty));
    assert_eq!(grok_stt::preheat_url("https://x.test/"), "https://x.test/v1/dpop/ping");
}

#[test]
fn grok_replies_are_read() {
    let reply = parse_json("{\"text\":\"好\"}").unwrap_or(zhunji::json::Json::Null);
    assert_eq!(grok_stt::reply_text(&reply).ok().as_deref(), Some("好"));
    let empty = parse_json("{}").unwrap_or(zhunji::json::Json::Null);
    assert!(matches!(
        grok_stt::reply_text(&empty),
        Err(grok_stt::GrokSttError::EmptyResponse)
    ));
    let long = "x".repeat(400);
    match grok_stt::upstream_error(502, &long) {
        grok_stt::GrokSttError::Upstream(status, m) => {
            assert_eq!(status, 502);
            assert_eq!(m.len(), 300);
        },
        _ => panic!("another error"),
    }
    assert!(matches!(
        grok_stt::result_outcome(grok_stt::ResultWait::TimedOut),
        Err(grok_stt::GrokSttError::Timeout)
    ));
    assert!(matches!(
        grok_stt::result_outcome(grok_stt::ResultWait::Dropped),
        Err(grok_stt::GrokSttError::Channel(_))
    ));
}

#[test]
fn engines_are_named_by_their_ids() {
    assert!(is_doubao("doubao"));
    assert!(!is_doubao("builtin-doubao"));
    assert!(grok_stt::is_grok_stt("grok_stt"));
}

#[test]
fn registration_body_holds_the_ids() {
    let ids = DeviceIds {
        cdid: "c-1".to_string(),
        openudid: "o\"2".to_string(),
        clientudid: "u-3".to_string(),
    };
    let body = register_body(&ids, 1_700_000_000_123);
    assert!(body.starts_with("{\"_gen_time\":1700000000123,\"header\":{\"access\":\"wifi\""));
    let value = parse_json(&body).expect("valid json");
    assert_eq!(value.get_str("magic_tag"), Some("ss_app_log"));
    let header = value.get("header").expect("header");
    assert_eq!(header.get_str("cdid"), Some("c-1"));
    assert_eq!(header.get_str("openudid"), Some("o\"2"));
    assert_eq!(header.get_str("clientudid"), Some("u-3"));
    assert_eq!(header.get_str("device_platform"), Some("android"));
    assert_eq!(header.get_str("version_name"), Some("1.1.2"));
}
