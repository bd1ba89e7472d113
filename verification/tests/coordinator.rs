use zhunji::asr::RawTranscript;
use zhunji::coordinator::begin::{BeginStep, OpenStep, RecorderStep};
use zhunji::coordinator::bridge::DeferredAsrBridge;
use zhunji::coordinator::end::{
    build_transcribe_failed_session, insertion_plan, text_to_insert, AfterTranscription,
    InsertionPlan, TranscribeFail, TranscribeReply, TranscriptStep,
};
use zhunji::coordinator::inner::{
    AsrCallLabel, Coordinator, CAPSULE_AUTO_HIDE_DELAY_MS, CAPSULE_CANCEL_HIDE_DELAY_MS,
    COORDINATOR_GLOBAL_TIMEOUT_SECS, POST_SESSION_COOLDOWN, TAIL_MS,
};
use zhunji::coordinator::resources::{
    discard_startup_resources_for_session, selected_microphone_device_name, take_session_resource,
    Effect, Engine, SessionResource, SharedRecordingMuteState,
};
use zhunji::coordinator::retranscribe::{
    apply_retranscription, retranscription_answered, retranscription_fed, retranscription_opened,
    RetranscribeStep,
};
use zhunji::coordinator::retry::{
    accept_silent_retry_transcript, RetryGate, RetryStep, SilentRetry,
};
use zhunji::coordinator_state::{
    begin_recording_abort_before_restore, publish_abort_idle_after_restore, startup_race_status,
    SessionId, SessionPhase, SessionState, StartupRaceStatus,
};
use zhunji::providers::Provider;
use zhunji::recorder::RecorderError;
use zhunji::types::{
    CapsuleState, ChineseScriptPreference, DictationSession, HistorySource, InsertStatus, Platform,
    PolishMode, WindowsInsertionMode,
};

const MS: u64 = 1_000_000;

fn session_id(n: u128) -> SessionId {
    SessionId::from_u128(n)
}

fn provider(id: &str, name: &str, url: &str) -> Provider {
    Provider {
        id: id.to_string(),
        name: name.to_string(),
        url: url.to_string(),
        api_key: Some("key".to_string()),
        notes: None,
        default: false,
    }
}

fn begin_dry(c: &mut Coordinator, now: u64) -> BeginStep {
    let mut out = Vec::new();
    c.begin_session(
        Platform::Macos,
        WindowsInsertionMode::Tsf,
        &[],
        "builtin-doubao",
        now,
        None,
        None,
        true,
        &mut out,
    )
}

#[test]
fn begin_session_dry_run_enters_listening_and_clears_stale_edges() {
    let mut c = Coordinator::new(0);
    let old_session_id = c.state.session_id;
    c.state.pending_stop = true;
    c.state.cancelled = true;

    assert!(matches!(begin_dry(&mut c, 5), BeginStep::Done(Ok(()))));

    assert_eq!(c.state.phase, SessionPhase::Listening);
    assert!(!c.state.pending_stop);
    assert!(!c.state.cancelled);
    assert_ne!(c.state.session_id, old_session_id);
}

#[test]
fn coordinator_begin_session_ignores_non_idle_phase() {
    let mut c = Coordinator::new(0);
    c.state.phase = SessionPhase::Processing;
    c.state.session_id = session_id(99);

    assert!(matches!(begin_dry(&mut c, 5), BeginStep::Done(Ok(()))));

    assert_eq!(c.state.phase, SessionPhase::Processing);
    assert_eq!(c.state.session_id, session_id(99));
}

#[test]
fn deferred_asr_bridge_flushes_startup_audio_before_live_chunks() {
    let mut bridge = DeferredAsrBridge::new();
    assert!(!bridge.consume_pcm_chunk(&[1, 2]));
    assert!(!bridge.consume_pcm_chunk(&[3, 4]));

    let mut target: Vec<u8> = Vec::new();
    bridge.begin_attach();
    let mut flushed: usize = 0;
    while let Some(chunk) = bridge.flush() {
        flushed += chunk.len();
        target.extend_from_slice(&chunk);
    }
    assert_eq!(flushed, 4);

    assert!(bridge.consume_pcm_chunk(&[5, 6]));
    target.extend_from_slice(&[5, 6]);
    assert_eq!(target, vec![1, 2, 3, 4, 5, 6]);
}

#[test]
fn audio_that_comes_while_attaching_keeps_its_place() {
    let mut bridge = DeferredAsrBridge::new();
    assert!(!bridge.consume_pcm_chunk(&[1]));
    bridge.begin_attach();
    assert_eq!(bridge.flush(), Some(vec![1]));
    assert!(!bridge.consume_pcm_chunk(&[2]));
    assert_eq!(bridge.flush(), Some(vec![2]));
    assert_eq!(bridge.flush(), None);
    assert!(bridge.consume_pcm_chunk(&[3]));
}

#[test]
fn manual_stop_during_starting_is_queued() {
    let mut c = Coordinator::new(0);
    c.state.phase = SessionPhase::Starting;
    c.state.pending_stop = false;
    let mut out = Vec::new();

    assert_eq!(c.stop_dictation(1, &mut out), None);

    assert_eq!(c.state.phase, SessionPhase::Starting);
    assert!(c.state.pending_stop);
}

#[test]
fn stop_dictation_from_listening_without_asr_returns_idle() {
    let mut c = Coordinator::new(0);
    c.state.phase = SessionPhase::Listening;
    c.state.session_id = session_id(123);
    let mut out = Vec::new();

    let end = c.stop_dictation(7 * MS, &mut out).unwrap();
    assert_eq!(end.session, session_id(123));
    assert_eq!(end.elapsed, 7);
    assert_eq!(c.state.phase, SessionPhase::Processing);
    assert!(c.recording_ended(end.session, &mut out).is_none());

    assert_eq!(c.state.phase, SessionPhase::Idle);
}

#[test]
fn stale_capsule_idle_schedule_does_not_hide_newer_state() {
    let mut c = Coordinator::new(0);
    c.emit_capsule(CapsuleState::Done, SessionPhase::Idle, 0, None, None, true);
    let scheduled_for = c.capsule.last_state;
    c.emit_capsule(CapsuleState::Cancelled, SessionPhase::Idle, 0, None, None, true);

    assert!(c.capsule_timer_fired(scheduled_for, true).is_none());

    assert_eq!(c.capsule.last_state, Some(CapsuleState::Cancelled));
}

#[test]
fn capsule_idle_schedule_hides_when_no_newer_state() {
    let mut c = Coordinator::new(0);
    c.emit_capsule(CapsuleState::Done, SessionPhase::Idle, 0, None, None, true);
    let scheduled_for = c.capsule.last_state;

    assert!(c.capsule_timer_fired(scheduled_for, true).is_some());

    assert_eq!(c.capsule.last_state, Some(CapsuleState::Idle));
}

#[test]
fn coordinator_cancel_session_state_machine_is_table_driven() {
    let cases = [
        (SessionPhase::Idle, SessionPhase::Idle, false),
        (SessionPhase::Starting, SessionPhase::Idle, true),
        (SessionPhase::Listening, SessionPhase::Idle, true),
        (SessionPhase::Processing, SessionPhase::Processing, true),
        (SessionPhase::Inserting, SessionPhase::Inserting, false),
    ];

    for (initial, expected_phase, expected_cancelled) in cases {
        let mut c = Coordinator::new(0);
        c.state.phase = initial;
        c.state.cancelled = false;
        c.state.focus_target = Some(1);
        let mut out = Vec::new();

        c.cancel_session(1, &mut out);

        assert_eq!(c.state.phase, expected_phase, "initial={initial:?}");
        assert_eq!(c.state.cancelled, expected_cancelled, "initial={initial:?}");
        if matches!(initial, SessionPhase::Starting | SessionPhase::Listening) {
            assert!(c.state.focus_target.is_none(), "initial={initial:?}");
        }
    }
}

#[test]
fn cancelled_session_leaves_nothing_behind() {
    let mut c = Coordinator::new(0);
    c.state.phase = SessionPhase::Listening;
    c.state.session_id = session_id(5);
    c.recorder = Some(SessionResource::new(session_id(5), ()));
    c.asr = Some(SessionResource::new(session_id(5), Engine::Doubao));
    let mut out = Vec::new();

    assert!(c.cancel_session(10, &mut out));

    assert!(c.recorder.is_none());
    assert!(c.asr.is_none());
    assert_eq!(c.state.phase, SessionPhase::Idle);
    assert!(out.iter().any(|e| matches!(e, Effect::StopRecorder { .. })));
    assert!(out.iter().any(|e| matches!(e, Effect::CancelAsr { engine: Engine::Doubao })));
    assert!(out.iter().any(|e| matches!(e, Effect::ScheduleCapsuleIdle { delay_ms: 0 })));
}

#[test]
fn stopped_recorder_gives_the_output_back() {
    let mut c = Coordinator::new(0);
    c.state.phase = SessionPhase::Listening;
    c.state.session_id = session_id(5);
    c.recorder = Some(SessionResource::new(session_id(5), ()));
    let mut out = Vec::new();

    c.cancel_session(10, &mut out);

    let stop = out.iter().position(|e| matches!(e, Effect::StopRecorder { .. })).unwrap();
    assert!(matches!(out[stop + 1], Effect::ReleaseMute));
}

#[test]
fn recorder_runtime_error_aborts_active_session() {
    let mut c = Coordinator::new(0);
    c.state.phase = SessionPhase::Listening;
    c.state.cancelled = false;
    let mut out = Vec::new();

    c.abort_recording_with_error("录音中断: stream failed".to_string(), 1, &mut out);

    assert_eq!(c.state.phase, SessionPhase::Idle);
    assert!(c.state.cancelled);
    assert!(c.recorder.is_none());
    assert!(c.asr.is_none());
}

#[test]
fn recorder_errors_of_another_session_are_passed_over() {
    let mut c = Coordinator::new(0);
    c.state.phase = SessionPhase::Listening;
    c.state.session_id = session_id(2);
    let mut out = Vec::new();

    c.on_recorder_error(session_id(1), "stream failed", 1, &mut out);
    assert_eq!(c.state.phase, SessionPhase::Listening);
    assert!(out.is_empty());

    c.on_recorder_error(session_id(2), "stream failed", 1, &mut out);
    assert_eq!(c.state.phase, SessionPhase::Idle);
    assert!(!out.is_empty());
}

#[test]
fn abort_recording_keeps_session_non_idle_until_restore_can_run() {
    let mut state = SessionState::default();
    state.phase = SessionPhase::Listening;
    state.cancelled = false;
    state.session_id = session_id(7);

    let abort = begin_recording_abort_before_restore(&mut state, 0).unwrap();

    assert_eq!(abort.session_id, session_id(7));
    assert!(state.cancelled);
    assert_eq!(state.phase, SessionPhase::Listening);

    publish_abort_idle_after_restore(&mut state, abort.session_id);

    assert_eq!(state.phase, SessionPhase::Idle);
}

#[test]
fn startup_race_check_treats_newer_session_as_stale() {
    let mut state = SessionState::default();
    state.phase = SessionPhase::Starting;
    state.cancelled = false;
    state.session_id = session_id(2);

    assert_eq!(
        startup_race_status(&state, session_id(1)),
        StartupRaceStatus::StaleContinuation
    );
}

#[test]
fn coordinator_startup_race_check_is_table_driven_for_begin_session_edges() {
    let cases = [
        (SessionPhase::Starting, false, session_id(7), StartupRaceStatus::ActiveStarting),
        (SessionPhase::Starting, true, session_id(7), StartupRaceStatus::CancelRaced),
        (SessionPhase::Idle, false, session_id(7), StartupRaceStatus::CancelRaced),
        (SessionPhase::Listening, false, session_id(7), StartupRaceStatus::CancelRaced),
        (SessionPhase::Starting, false, session_id(8), StartupRaceStatus::StaleContinuation),
    ];

    for (phase, cancelled, actual_session_id, expected) in cases {
        let mut state = SessionState::default();
        state.phase = phase;
        state.cancelled = cancelled;
        state.session_id = actual_session_id;

        assert_eq!(
            startup_race_status(&state, session_id(7)),
            expected,
            "phase={phase:?} cancelled={cancelled} actual_session={actual_session_id:?}"
        );
    }
}

#[test]
fn begin_recording_abort_is_noop_after_prior_cancel_or_idle() {
    let cases = [
        (SessionPhase::Idle, false),
        (SessionPhase::Processing, false),
        (SessionPhase::Listening, true),
    ];

    for (phase, cancelled) in cases {
        let mut state = SessionState::default();
        state.phase = phase;
        state.cancelled = cancelled;

        assert!(begin_recording_abort_before_restore(&mut state, 0).is_none());
        assert_eq!(state.phase, phase);
        assert_eq!(state.cancelled, cancelled);
    }
}

#[test]
fn stale_startup_cleanup_keeps_newer_asr_resource() {
    let mut c = Coordinator::new(0);
    c.asr = Some(SessionResource::new(session_id(2), Engine::Doubao));
    let mut out = Vec::new();

    discard_startup_resources_for_session(&mut c.recorder, &mut c.asr, session_id(1), &mut out);

    assert_eq!(c.asr.as_ref().map(|resource| resource.session_id), Some(session_id(2)));

    discard_startup_resources_for_session(&mut c.recorder, &mut c.asr, session_id(2), &mut out);

    assert!(c.asr.is_none());
}

#[test]
fn take_session_resource_returns_resource_on_id_match() {
    let id = session_id(1);
    let mut slot = Some(SessionResource::new(id, "payload"));
    let taken = take_session_resource(&mut slot, id);
    assert_eq!(taken, Some("payload"));
    assert!(slot.is_none());
}

#[test]
fn take_session_resource_keeps_resource_on_id_mismatch() {
    let mut slot = Some(SessionResource::new(session_id(1), "payload"));
    let taken = take_session_resource(&mut slot, session_id(2));
    assert_eq!(taken, None);
    assert!(slot.is_some());
}

#[test]
fn take_session_resource_empty_slot_returns_none() {
    let mut slot: Option<SessionResource<&str>> = None;
    assert_eq!(take_session_resource(&mut slot, session_id(1)), None);
}

#[test]
fn mute_is_held_until_the_last_recording_ends() {
    let mut mute = SharedRecordingMuteState::new();
    assert!(!mute.needs_activation(false));
    assert!(mute.needs_activation(true));
    mute.acquire(true, true);
    assert!(!mute.needs_activation(true));
    mute.acquire(true, false);
    assert!(!mute.release());
    assert!(mute.release());
    assert!(!mute.release());
}

#[test]
fn blank_microphone_names_mean_the_default_one() {
    assert_eq!(selected_microphone_device_name("  "), None);
    assert_eq!(selected_microphone_device_name(" USB Mic "), Some("USB Mic".to_string()));
}

#[test]
fn session_with_an_unknown_engine_ends_at_once() {
    let mut c = Coordinator::new(0);
    let mut out = Vec::new();
    let step = c.begin_session(
        Platform::Windows,
        WindowsInsertionMode::Tsf,
        &[],
        "mine",
        0,
        Some(3),
        Some("Mail".to_string()),
        false,
        &mut out,
    );
    match step {
        BeginStep::Done(Err(e)) => {
            assert_eq!(e, "未找到语音引擎「mine」，请在供应商页面添加")
        },
        _ => panic!("an unknown engine was used"),
    }
    assert_eq!(c.state.phase, SessionPhase::Idle);
    assert!(matches!(out[0], Effect::PrepareIme { .. }));
    assert!(matches!(out[1], Effect::Capsule { state: CapsuleState::Recording, .. }));
    assert!(matches!(out[2], Effect::Capsule { state: CapsuleState::Error, .. }));
    assert!(matches!(out[3], Effect::RestoreIme { .. }));
}

fn begin_with(c: &mut Coordinator, providers: &[Provider], active: &str) -> SessionId {
    let mut out = Vec::new();
    let step = c.begin_session(
        Platform::Macos,
        WindowsInsertionMode::Tsf,
        providers,
        active,
        0,
        None,
        None,
        false,
        &mut out,
    );
    match step {
        BeginStep::CheckMicrophone { session } => session,
        _ => panic!("the session did not begin"),
    }
}

#[test]
fn session_starts_listens_and_gives_its_text() {
    let mut c = Coordinator::new(0);
    let providers = vec![provider("p1", "Mine", "https://example.test")];
    let session = begin_with(&mut c, &providers, "p1");
    assert_eq!(c.state.phase, SessionPhase::Starting);
    assert!(c.capsule.warming);

    let mut out = Vec::new();
    match c.begin_with_microphone(session, Ok(()), &providers, "p1", &mut out) {
        RecorderStep::StartRecorder { engine } => assert_eq!(engine, Engine::GrokStt),
        _ => panic!("no recorder"),
    }
    match &out[0] {
        Effect::SaveGrokCredentials { url, api_key } => {
            assert_eq!(url, "https://example.test");
            assert_eq!(api_key, "key");
        },
        _ => panic!("credentials were not handed on"),
    }

    assert!(c.recorder_started(session, Ok(true), 10 * MS, &mut out).is_ok());
    assert!(c.recorder.is_some());
    match c.session_opened(session, Engine::GrokStt, Ok(()), 4, &mut out) {
        OpenStep::Done(Ok(())) => {},
        _ => panic!("not listening"),
    }
    assert_eq!(c.state.phase, SessionPhase::Listening);

    let mut out = Vec::new();
    let end = c.end_session(2_000 * MS, &mut out).unwrap();
    assert_eq!(end.elapsed, 2000);
    let (engine, label) = c.recording_ended(session, &mut out).unwrap();
    assert_eq!(engine, Engine::GrokStt);
    let label = label.unwrap();
    assert_eq!(label.provider, "Mine");

    let reply = TranscribeReply::Text { text: "你好".to_string(), duration_ms: 1900 };
    let raw = c.transcribed(engine, reply, &mut out);
    let raw = match c.check_transcription(session, engine, raw, &mut out) {
        AfterTranscription::Text(raw) => raw,
        _ => panic!("no text"),
    };
    let label = Some(label);
    let created = "2026-01-01T00:00:00Z";
    let step = c.accept_transcript(
        session,
        &raw,
        &label,
        end.elapsed,
        800,
        created,
        PolishMode::Raw,
        true,
        2_800 * MS,
        &mut out,
    );
    assert!(matches!(step, TranscriptStep::Insert));
    assert!(c.enter_inserting(session, false, &mut out));
    assert_eq!(c.state.phase, SessionPhase::Inserting);

    let mut out = Vec::new();
    c.finish_session(
        session,
        Platform::Macos,
        WindowsInsertionMode::Tsf,
        true,
        InsertStatus::Inserted,
        true,
        &raw,
        "你好",
        &label,
        end.elapsed,
        800,
        created,
        3_000 * MS,
        &mut out,
    );
    assert_eq!(c.state.phase, SessionPhase::Idle);
    assert_eq!(c.hotkey.cooldown_until, Some(3_000 * MS + POST_SESSION_COOLDOWN));
    assert!(c.engine_status().ok);
    let entry = out
        .iter()
        .find_map(|e| match e {
            Effect::AppendHistory { entry } => Some(entry),
            _ => None,
        })
        .unwrap();
    assert_eq!(entry.id, session.to_text());
    assert_eq!(entry.final_text, "你好");
    assert_eq!(entry.asr_provider.as_deref(), Some("Mine"));
    assert_eq!(entry.has_audio_recording, Some(true));
    assert_eq!(entry.duration_ms, Some(1900));
    assert!(out.iter().any(|e| matches!(e, Effect::BumpActivity)));
    assert!(out.iter().any(|e| matches!(
        e,
        Effect::Capsule { state: CapsuleState::Done, inserted_chars: Some(2), .. }
    )));
}

#[test]
fn refused_microphone_ends_the_session() {
    let mut c = Coordinator::new(0);
    let session = begin_with(&mut c, &[], "builtin-doubao");
    let mut out = Vec::new();
    let step =
        c.begin_with_microphone(session, Err("no".to_string()), &[], "builtin-doubao", &mut out);
    match step {
        RecorderStep::Done(Err(e)) => assert_eq!(e, "no"),
        _ => panic!("went on without a microphone"),
    }
    assert_eq!(c.state.phase, SessionPhase::Idle);
}

#[test]
fn failing_recorder_ends_the_start() {
    let mut c = Coordinator::new(0);
    let session = begin_with(&mut c, &[], "builtin-doubao");
    let mut out = Vec::new();
    assert!(matches!(
        c.begin_with_microphone(session, Ok(()), &[], "builtin-doubao", &mut out),
        RecorderStep::StartRecorder { engine: Engine::Doubao }
    ));
    let started = Err(RecorderError::NoInputDevice);
    assert!(c.recorder_started(session, started, MS, &mut out).is_err());
    assert_eq!(c.state.phase, SessionPhase::Idle);
    assert!(c.asr.is_none());
}

#[test]
fn engine_that_does_not_open_ends_the_session() {
    let mut c = Coordinator::new(0);
    let session = begin_with(&mut c, &[], "builtin-doubao");
    let mut out = Vec::new();
    c.begin_with_microphone(session, Ok(()), &[], "builtin-doubao", &mut out);
    assert!(c.recorder_started(session, Ok(false), MS, &mut out).is_ok());
    match c.session_opened(session, Engine::Doubao, Err("refused".to_string()), 0, &mut out) {
        OpenStep::Done(Err(_)) => {},
        _ => panic!("listened to an engine that is not there"),
    }
    assert_eq!(c.state.phase, SessionPhase::Idle);
    assert!(c.recorder.is_none());
    assert!(!c.engine_status().ok);
}

#[test]
fn cancelled_start_never_listens() {
    let mut c = Coordinator::new(0);
    let session = begin_with(&mut c, &[], "builtin-doubao");
    let mut out = Vec::new();
    assert!(c.cancel_session(MS, &mut out));
    c.finish_starting_session(session, &mut out);
    assert_eq!(c.state.phase, SessionPhase::Idle);
}

#[test]
fn stop_that_waits_ends_the_session_once_it_listens() {
    let mut c = Coordinator::new(0);
    let session = begin_with(&mut c, &[], "builtin-doubao");
    let mut out = Vec::new();
    c.begin_with_microphone(session, Ok(()), &[], "builtin-doubao", &mut out);
    assert!(c.recorder_started(session, Ok(false), MS, &mut out).is_ok());
    c.request_stop_during_starting(2 * MS, &mut out);
    assert!(c.recorder.is_none());
    assert!(matches!(
        c.session_opened(session, Engine::Doubao, Ok(()), 0, &mut out),
        OpenStep::EndNow
    ));
    assert_eq!(c.state.phase, SessionPhase::Listening);
}

#[test]
fn cancelled_session_is_never_inserted() {
    let mut c = Coordinator::new(0);
    c.state.phase = SessionPhase::Processing;
    c.state.session_id = session_id(4);
    let mut out = Vec::new();
    assert!(c.cancel_session(MS, &mut out));
    assert!(!c.enter_inserting(session_id(4), false, &mut out));
    assert_eq!(c.state.phase, SessionPhase::Idle);
    assert!(!out.iter().any(|e| matches!(e, Effect::AppendHistory { .. })));
}

#[test]
fn text_that_was_streamed_is_kept_though_cancelled() {
    let mut c = Coordinator::new(0);
    c.state.phase = SessionPhase::Processing;
    c.state.cancelled = true;
    let mut out = Vec::new();
    assert!(c.enter_inserting(session_id(0), true, &mut out));
    assert_eq!(c.state.phase, SessionPhase::Inserting);
}

#[test]
fn failures_of_the_engine_are_told() {
    let mut c = Coordinator::new(0);
    let mut out = Vec::new();
    let r = c.transcribed(Engine::Doubao, TranscribeReply::Failed("boom".to_string()), &mut out);
    let fail = r.unwrap_err();
    assert_eq!(fail.user_msg, "识别失败: boom");
    assert_eq!(fail.err, "boom");
    let r = c.transcribed(Engine::GrokStt, TranscribeReply::TimedOut, &mut out);
    let fail = r.unwrap_err();
    assert_eq!(fail.user_msg, "识别超时");
    assert_eq!(fail.err, "grok_stt global timeout");
    assert_eq!(c.engine_status().error.as_deref(), Some("识别超时"));
    assert_eq!(out.len(), 2);
}

#[test]
fn empty_transcript_is_an_error_that_stays_in_the_history() {
    let mut c = Coordinator::new(0);
    c.state.phase = SessionPhase::Processing;
    c.live_insert.prev_len = 3;
    let raw = RawTranscript { text: "  ".to_string(), duration_ms: 10 };
    let mut out = Vec::new();
    let step = c.accept_transcript(
        session_id(3),
        &raw,
        &None,
        5,
        6,
        "2026-01-01T00:00:00Z",
        PolishMode::Raw,
        true,
        MS,
        &mut out,
    );
    match step {
        TranscriptStep::Empty(e) => assert_eq!(e, "ASR returned empty transcript"),
        _ => panic!("nothing was inserted"),
    }
    match &out[0] {
        Effect::AppendHistory { entry } => {
            assert_eq!(entry.error_code.as_deref(), Some("emptyTranscript"));
            assert_eq!(entry.id, session_id(3).to_text());
        },
        _ => panic!("nothing was kept"),
    }
    assert!(matches!(out.last(), Some(Effect::DeleteChars { count: 3 })));
    assert_eq!(c.state.phase, SessionPhase::Idle);
}

#[test]
fn failed_session_ends_with_the_engine_tried_last() {
    let mut c = Coordinator::new(0);
    c.state.phase = SessionPhase::Processing;
    c.audio_archive_active = true;
    let fail = TranscribeFail { user_msg: "识别超时".to_string(), err: "late".to_string() };
    let mut out = Vec::new();
    let r = c.retries_exhausted(
        session_id(9),
        fail,
        Some(AsrCallLabel::new("first", None)),
        Some(AsrCallLabel::new("second", Some("m".to_string()))),
        11,
        12,
        "2026-01-01T00:00:00Z",
        PolishMode::Light,
        MS,
        &mut out,
    );
    assert_eq!(r, Err("late".to_string()));
    match &out[0] {
        Effect::AppendHistory { entry } => {
            assert_eq!(entry.asr_provider.as_deref(), Some("second"));
            assert_eq!(entry.asr_model.as_deref(), Some("m"));
            assert_eq!(entry.mode, PolishMode::Light);
        },
        _ => panic!("nothing was kept"),
    }
    assert_eq!(c.state.phase, SessionPhase::Idle);
    assert!(matches!(
        out.last(),
        Some(Effect::ScheduleCapsuleIdle { delay_ms: CAPSULE_AUTO_HIDE_DELAY_MS })
    ));
}

#[test]
fn transcribe_failed_history_keeps_session_id_for_recording_lookup() {
    let sid = zhunji::coordinator_state::new_session_id();
    let session = build_transcribe_failed_session(
        sid,
        "2026-01-01T00:00:00Z",
        4200,
        17_250,
        PolishMode::Structured,
        true,
        &None,
    );
    assert_eq!(session.id, sid.to_text());
}

#[test]
fn transcribe_failed_history_marks_failed_and_recoverable() {
    let sid = zhunji::coordinator_state::new_session_id();
    let session = build_transcribe_failed_session(
        sid,
        "2026-01-01T00:00:00Z",
        1234,
        17_250,
        PolishMode::Structured,
        true,
        &None,
    );
    assert!(matches!(session.insert_status, InsertStatus::Failed));
    assert_eq!(session.error_code.as_deref(), Some("transcribeFailed"));
    assert_eq!(session.duration_ms, Some(1234));
    assert_eq!(session.asr_ms, Some(17_250));
    assert_eq!(session.has_audio_recording, Some(true));
}

#[test]
fn transcribe_failed_history_flags_no_audio_when_archive_inactive() {
    let sid = zhunji::coordinator_state::new_session_id();
    let session = build_transcribe_failed_session(
        sid,
        "2026-01-01T00:00:00Z",
        1,
        250,
        PolishMode::Structured,
        false,
        &None,
    );
    assert_eq!(session.has_audio_recording, Some(false));
}

#[test]
fn silent_retry_replaces_initial_asr_attribution() {
    let mut label = Some(AsrCallLabel::new(
        "volcengine",
        Some("volc.seedasr.sauc.duration".into()),
    ));
    let retry_label =
        AsrCallLabel::new("bailian-qwen3-realtime", Some("qwen3-asr-flash-realtime".into()));
    let raw = RawTranscript { text: "重试成功".into(), duration_ms: 900 };

    let accepted = accept_silent_retry_transcript(raw, retry_label.copy(), &mut label);

    assert_eq!(accepted.text, "重试成功");
    let label = label.unwrap();
    assert_eq!(label.provider, retry_label.provider);
    assert_eq!(label.model, retry_label.model);
}

#[test]
fn retries_wait_longer_and_come_to_an_end() {
    let mut wav: Vec<u8> = vec![0u8; 44];
    wav.extend_from_slice(&[0u8; 64]);
    let (mut retry, pcm) = SilentRetry::start(&wav).unwrap();
    assert_eq!(pcm.len(), 64);
    assert_eq!(retry.duration_ms, 2);
    assert_eq!(retry.backoff_ms(), 500);
    let tried = Some(AsrCallLabel::new("a", None));
    match retry.attempt_done(Err("lost".to_string()), tried) {
        RetryStep::Again { backoff_ms } => assert_eq!(backoff_ms, 1000),
        _ => panic!("gave up too soon"),
    }
    match retry.attempt_done(Err("lost again".to_string()), None) {
        RetryStep::Exhausted(Some(label)) => assert_eq!(label.provider, "a"),
        _ => panic!("went on"),
    }
}

#[test]
fn retries_stop_where_too_many_sessions_are_open() {
    let (mut retry, _pcm) = SilentRetry::start(&[0u8; 46]).unwrap();
    match retry.attempt_done(Err("code 40200011".to_string()), None) {
        RetryStep::Exhausted(None) => {},
        _ => panic!("went on"),
    }
    assert!(SilentRetry::start(&[0u8; 44]).is_none());
}

#[test]
fn retry_brings_the_text_and_its_engine() {
    let (mut retry, _pcm) = SilentRetry::start(&[0u8; 76]).unwrap();
    let tried = Some(AsrCallLabel::new("a", None));
    match retry.attempt_done(Ok("好".to_string()), tried) {
        RetryStep::Transcript { raw, label } => {
            assert_eq!(raw.text, "好");
            assert_eq!(raw.duration_ms, 1);
            assert_eq!(label.provider, "a");
        },
        _ => panic!("no text"),
    }
}

#[test]
fn retry_makes_sense_only_with_a_recording() {
    let mut c = Coordinator::new(0);
    assert_eq!(c.retry_gate(), RetryGate::Exhausted);
    c.audio_archive_active = true;
    assert_eq!(c.retry_gate(), RetryGate::ReadRecording);
    c.state.cancelled = true;
    assert_eq!(c.retry_gate(), RetryGate::Cancelled);
}

#[test]
fn opened_engine_is_closed_however_a_retranscription_ends() {
    assert!(matches!(retranscription_opened(Ok(()), true), RetranscribeStep::Feed));
    match retranscription_opened(Err("shut".to_string()), true) {
        RetranscribeStep::Done { result, close, cancel } => {
            assert_eq!(result, Err("shut".to_string()));
            assert!(!close);
            assert!(cancel);
        },
        _ => panic!("went on"),
    }
    match retranscription_fed(Ok(()), false) {
        RetranscribeStep::Await { timeout_secs } => {
            assert_eq!(timeout_secs, COORDINATOR_GLOBAL_TIMEOUT_SECS)
        },
        _ => panic!("did not wait"),
    }
    match retranscription_fed(Err("cut".to_string()), false) {
        RetranscribeStep::Done { result, close, cancel } => {
            assert_eq!(result, Err("cut".to_string()));
            assert!(close);
            assert!(!cancel);
        },
        _ => panic!("went on"),
    }
    match retranscription_answered(TranscribeReply::TimedOut, true) {
        RetranscribeStep::Done { result, close, cancel } => {
            assert_eq!(result, Err("重新转录超时".to_string()));
            assert!(close);
            assert!(cancel);
        },
        _ => panic!("went on"),
    }
    let reply = TranscribeReply::Text { text: "好".to_string(), duration_ms: 1 };
    match retranscription_answered(reply, true) {
        RetranscribeStep::Done { result, close, cancel } => {
            assert_eq!(result, Ok("好".to_string()));
            assert!(close);
            assert!(!cancel);
        },
        _ => panic!("went on"),
    }
}

fn entry(id: &str) -> DictationSession {
    DictationSession {
        id: id.to_string(),
        created_at: "2026-01-01T00:00:00Z".to_string(),
        source: HistorySource::Voice,
        raw_transcript: "old".to_string(),
        final_text: "old".to_string(),
        mode: PolishMode::Light,
        style_pack_id: None,
        translation_active: false,
        polish_source: None,
        app_bundle_id: None,
        app_name: None,
        insert_status: InsertStatus::Failed,
        error_code: Some("transcribeFailed".to_string()),
        duration_ms: Some(7),
        dictionary_entry_count: None,
        has_audio_recording: Some(true),
        asr_provider: Some("old".to_string()),
        asr_model: None,
        llm_provider: Some("llm".to_string()),
        llm_model: Some("llm".to_string()),
        asr_ms: None,
        polish_ms: Some(4),
    }
}

#[test]
fn retranscription_replaces_the_text_of_its_entry() {
    let mut sessions = vec![entry("a"), entry("b")];
    let label = AsrCallLabel::new("new", Some("m".to_string()));
    let updated =
        apply_retranscription(&mut sessions, "b", Ok(("好".to_string(), label)), 33).unwrap();
    assert_eq!(updated.raw_transcript, "好");
    assert_eq!(sessions[1].final_text, "好");
    assert_eq!(sessions[1].error_code, None);
    assert_eq!(sessions[1].asr_provider.as_deref(), Some("new"));
    assert_eq!(sessions[1].asr_model.as_deref(), Some("m"));
    assert_eq!(sessions[1].asr_ms, Some(33));
    assert_eq!(sessions[1].llm_provider, None);
    assert_eq!(sessions[1].llm_model, None);
    assert_eq!(sessions[1].polish_ms, None);
    assert_eq!(sessions[1].duration_ms, Some(7));
    assert_eq!(sessions[0].final_text, "old");
}

#[test]
fn retranscription_that_brings_nothing_changes_nothing() {
    let mut sessions = vec![entry("a")];
    let blank = (" ".to_string(), AsrCallLabel::new("new", None));
    assert_eq!(
        apply_retranscription(&mut sessions, "a", Ok(blank), 1).unwrap_err(),
        "重新转录仍未识别到语音"
    );
    let other = ("好".to_string(), AsrCallLabel::new("new", None));
    assert_eq!(
        apply_retranscription(&mut sessions, "z", Ok(other), 1).unwrap_err(),
        "history entry not found"
    );
    assert_eq!(
        apply_retranscription(&mut sessions, "a", Err("lost".to_string()), 1).unwrap_err(),
        "lost"
    );
    assert_eq!(sessions[0].final_text, "old");
}

#[test]
fn labels_have_no_blank_models() {
    assert_eq!(AsrCallLabel::new("a", Some(" ".to_string())).model, None);
    assert_eq!(AsrCallLabel::new("a", Some("m".to_string())).model.as_deref(), Some("m"));
}

#[test]
fn text_goes_in_by_the_way_that_the_platform_has() {
    assert_eq!(
        insertion_plan(Platform::Macos, WindowsInsertionMode::Tsf, true, true),
        InsertionPlan::Insert
    );
    assert_eq!(
        insertion_plan(Platform::Windows, WindowsInsertionMode::Tsf, true, true),
        InsertionPlan::InputMethod
    );
}

#[test]
fn partial_texts_take_the_place_of_those_before() {
    let mut c = Coordinator::new(0);
    c.live_insert.enabled = true;
    let mut out = Vec::new();
    c.on_partial("你", &mut out);
    c.on_partial("你好", &mut out);
    assert!(matches!(&out[0], Effect::TypeText { text } if text == "你"));
    assert!(matches!(&out[1], Effect::PartialText { text } if text == "你"));
    assert!(matches!(&out[2], Effect::DeleteChars { count: 1 }));
    assert!(matches!(&out[3], Effect::TypeText { text } if text == "你好"));
    assert_eq!(c.live_insert.prev_len, 2);
}

#[test]
fn delays_are_as_promised() {
    assert_eq!(CAPSULE_AUTO_HIDE_DELAY_MS, 2000);
    assert_eq!(CAPSULE_CANCEL_HIDE_DELAY_MS, 0);
    assert_eq!(POST_SESSION_COOLDOWN, 600 * MS);
    assert_eq!(COORDINATOR_GLOBAL_TIMEOUT_SECS, 30);
    assert_eq!(TAIL_MS, 500);
}

#[test]
fn inserted_text_is_the_transcript_in_the_preferred_script() {
    let raw = RawTranscript { text: "简体字".to_string(), duration_ms: 900 };
    assert_eq!(text_to_insert(&raw, ChineseScriptPreference::Auto), "简体字");
    assert_eq!(text_to_insert(&raw, ChineseScriptPreference::Traditional), "簡體字");
}

#[test]
fn live_insertion_needs_the_builtin_engine_and_the_users_wish() {
    assert!(Coordinator::wants_live_insert(Engine::Doubao, true));
    assert!(!Coordinator::wants_live_insert(Engine::Doubao, false));
    assert!(!Coordinator::wants_live_insert(Engine::GrokStt, true));
}

#[test]
fn input_source_is_switched_back_where_the_session_is_over() {
    let mut c = Coordinator::new(0);
    c.state.phase = SessionPhase::Starting;
    c.state.session_id = session_id(5);
    let mut out = Vec::new();
    c.live_insert_switched(session_id(5), Ok(Some(17)), &mut out);
    assert!(c.live_insert.enabled);
    assert_eq!(c.live_insert.prev_ime, Some(17));
    assert!(out.is_empty());

    let mut c = Coordinator::new(0);
    c.live_insert_switched(session_id(5), Ok(Some(17)), &mut out);
    assert!(!c.live_insert.enabled);
    assert_eq!(out.len(), 1);
}

#[test]
fn session_cancelled_while_recognising_goes_back_to_idle() {
    let mut c = Coordinator::new(0);
    c.state.phase = SessionPhase::Processing;
    c.state.session_id = session_id(6);
    c.state.cancelled = true;
    let mut out = Vec::new();
    c.transcription_cancelled(session_id(6), Engine::Doubao, &mut out);
    assert_eq!(c.state.phase, SessionPhase::Idle);
    assert!(matches!(out[0], Effect::CancelAsr { engine: Engine::Doubao }));
    assert!(matches!(out[1], Effect::RestoreIme { .. }));
}
