//! Ending a session: from letting go of the key to the text at the cursor.
//!
//! The caller runs the steps in order: [`Coordinator::end_session`], a short tail of recording,
//! [`Coordinator::recording_ended`], the engine, [`Coordinator::transcribed`] and
//! [`Coordinator::check_transcription`], retries where the engine failed,
//! [`Coordinator::accept_transcript`], [`text_to_insert`], [`Coordinator::enter_inserting`], the
//! insertion by [`insertion_plan`], and [`Coordinator::finish_session`].
use vstd::prelude::*;
use vstd::string::*;

use crate::asr::RawTranscript;
use crate::coordinator::asr_wiring::script_preferred;
use crate::coordinator::cancel::{
    after_cancel, after_finish_cancelled, cancel_asks, finish_cancelled_asks,
};
use crate::coordinator::inner::{
    clock_has_room, delete_effects, input_source_effects, opt_label, put_delete, put_input_source,
    AsrCallLabel, Coordinator, EngineStatus, HotkeyEdges, LabelRecord, LiveInsert,
    CAPSULE_AUTO_HIDE_DELAY_MS, CAPSULE_CANCEL_HIDE_DELAY_MS, POST_SESSION_COOLDOWN,
};
use crate::coordinator::press::{after_stop_request, stop_request_asks};
use crate::coordinator::resources::{
    effects, error_capsule, owned_by, pending_stop_effects, plain_capsule, put, put_capsule,
    put_error, slot_after, stop_effects, take_session_resource, Effect, EffectView, Engine,
    SessionResource,
};
use crate::coordinator::streaming::{
    default_done_message, dictation_error_code, done_message, error_code, finalize_polished_text,
};
use crate::coordinator_state::{
    cancellable, elapsed_ms, finishes_cancel, idle_if_current, millis_between,
    start_processing_if_listening, SessionId, SessionPhase, SessionState,
};
use crate::text::{blank, is_blank, join2, owned, same, to_chars};
use crate::types::{
    opt_copy, opt_text, CapsuleState, ChineseScriptPreference, DictationSession, HistorySource,
    InsertStatus, Platform, PolishMode, SessionRecord, WindowsInsertionMode,
};

verus! {

/// A session whose recording is about to end, and how long it ran.
#[derive(Clone, Copy, PartialEq, Eq, Structural, Debug)]
pub struct EndStart {
    pub session: SessionId,
    pub elapsed: u64,
}

/// The coordinator once a session that listened is being processed.
pub open spec fn after_end(c: Coordinator) -> Coordinator {
    if c.state.phase == SessionPhase::Listening {
        Coordinator {
            state: SessionState { phase: SessionPhase::Processing, ..c.state },
            live_insert: LiveInsert { enabled: false, ..c.live_insert },
            ..c
        }
    } else {
        c
    }
}

/// What the end of a recording asks for.
pub open spec fn end_asks(c: Coordinator, now: u64) -> Seq<EffectView> {
    if c.state.phase == SessionPhase::Listening {
        seq![
            plain_capsule(
                CapsuleState::Transcribing,
                SessionPhase::Processing,
                elapsed_ms(c.state.started_at, now),
            ),
        ]
    } else {
        seq![]
    }
}

/// What stopping the recorder at the end of a recording asks for.
pub open spec fn recorder_end_effects(
    slot: Option<SessionResource<()>>,
    id: SessionId,
) -> Seq<EffectView> {
    if owned_by(slot, id) is Some {
        seq![EffectView::StopRecorder { session: id }, EffectView::ReleaseMute]
    } else {
        seq![]
    }
}

/// What the engine came to.
#[derive(Debug)]
pub enum TranscribeReply {
    Text { text: String, duration_ms: u64 },
    Failed(String),
    TimedOut,
}

/// A failed recognition: what the user is told, and what went wrong.
#[derive(Debug)]
pub struct TranscribeFail {
    pub user_msg: String,
    pub err: String,
}

/// What comes after a recognition.
#[derive(Debug)]
pub enum AfterTranscription {
    /// The session was cancelled and is over.
    Cancelled,
    Text(RawTranscript),
    /// Try again, silently.
    Retry(TranscribeFail),
}

/// What the engine's time limit is told as.
pub open spec fn timeout_name(engine: Engine) -> Seq<char> {
    match engine {
        Engine::Doubao => "doubao global timeout"@,
        Engine::GrokStt => "grok_stt global timeout"@,
    }
}

/// What leaving a cancelled session asks for.
pub open spec fn leave_cancelled_asks(c: Coordinator, id: SessionId) -> Seq<EffectView> {
    seq![EffectView::RestoreIme { session: id }] + finish_cancelled_asks(c, id)
}

/// What went into the history: the parts of an entry that differ.
pub ghost struct EntryParts {
    pub raw: Seq<char>,
    pub text: Seq<char>,
    pub mode: PolishMode,
    pub status: InsertStatus,
    pub error: Option<Seq<char>>,
    pub duration_ms: u64,
    pub asr_ms: u64,
    pub has_audio: bool,
    pub label: Option<LabelRecord>,
}

/// The history entry of a session. Its id is that of the session, by which the recording is found.
pub open spec fn entry_of(id: SessionId, created_at: Seq<char>, p: EntryParts) -> SessionRecord {
    SessionRecord {
        id: id.text(),
        created_at,
        source: HistorySource::Voice,
        raw_transcript: p.raw,
        final_text: p.text,
        mode: p.mode,
        style_pack_id: None,
        translation_active: false,
        polish_source: None,
        app_bundle_id: None,
        app_name: None,
        insert_status: p.status,
        error_code: p.error,
        duration_ms: Some(p.duration_ms),
        dictionary_entry_count: None,
        has_audio_recording: Some(p.has_audio),
        asr_provider: match p.label {
            Some(l) => Some(l.provider),
            None => None,
        },
        asr_model: match p.label {
            Some(l) => l.model,
            None => None,
        },
        llm_provider: None,
        llm_model: None,
        asr_ms: Some(p.asr_ms),
        polish_ms: None,
    }
}

/// The history entry of a session.
fn new_entry(
    session: SessionId,
    created_at: &str,
    raw: &str,
    text: &str,
    mode: PolishMode,
    status: InsertStatus,
    error: Option<String>,
    duration_ms: u64,
    asr_ms: u64,
    has_audio: bool,
    label: &Option<AsrCallLabel>,
) -> (r: DictationSession)
    ensures
        r@ == entry_of(
            session,
            created_at@,
            EntryParts {
                raw: raw@,
                text: text@,
                mode,
                status,
                error: opt_text(error),
                duration_ms,
                asr_ms,
                has_audio,
                label: opt_label(*label),
            },
        ),
{
    let (asr_provider, asr_model) = match label {
        Some(l) => (Some(owned(l.provider.as_str())), opt_copy(&l.model)),
        None => (None, None),
    };
    DictationSession {
        id: session.to_text(),
        created_at: owned(created_at),
        source: HistorySource::Voice,
        raw_transcript: owned(raw),
        final_text: owned(text),
        mode,
        style_pack_id: None,
        translation_active: false,
        polish_source: None,
        app_bundle_id: None,
        app_name: None,
        insert_status: status,
        error_code: error,
        duration_ms: Some(duration_ms),
        dictionary_entry_count: None,
        has_audio_recording: Some(has_audio),
        asr_provider,
        asr_model,
        llm_provider: None,
        llm_model: None,
        asr_ms: Some(asr_ms),
        polish_ms: None,
    }
}

/// The history entry of a session whose recognition failed. The recording, where there is one, is
/// found by the id.
pub fn build_transcribe_failed_session(
    session: SessionId,
    created_at: &str,
    duration_ms: u64,
    asr_ms: u64,
    mode: PolishMode,
    has_audio_recording: bool,
    label: &Option<AsrCallLabel>,
) -> (r: DictationSession)
    ensures
        r@ == failed_entry(
            session,
            created_at@,
            duration_ms,
            asr_ms,
            mode,
            has_audio_recording,
            opt_label(*label),
        ),
{
    let r = new_entry(
        session,
        created_at,
        "",
        "",
        mode,
        InsertStatus::Failed,
        Some(owned("transcribeFailed")),
        duration_ms,
        asr_ms,
        has_audio_recording,
        label,
    );
    proof {
        reveal_strlit("");
        assert(""@ =~= Seq::<char>::empty());
    }
    r
}

/// The history entry of a session whose recognition failed.
pub open spec fn failed_entry(
    id: SessionId,
    created_at: Seq<char>,
    duration_ms: u64,
    asr_ms: u64,
    mode: PolishMode,
    has_audio: bool,
    label: Option<LabelRecord>,
) -> SessionRecord {
    entry_of(
        id,
        created_at,
        EntryParts {
            raw: Seq::empty(),
            text: Seq::empty(),
            mode,
            status: InsertStatus::Failed,
            error: Some("transcribeFailed"@),
            duration_ms,
            asr_ms,
            has_audio,
            label,
        },
    )
}

/// The history entry of a session in which nothing was recognised.
pub open spec fn empty_entry(
    id: SessionId,
    created_at: Seq<char>,
    raw: Seq<char>,
    mode: PolishMode,
    duration_ms: u64,
    asr_ms: u64,
    has_audio: bool,
    label: Option<LabelRecord>,
) -> SessionRecord {
    entry_of(
        id,
        created_at,
        EntryParts {
            raw,
            text: Seq::empty(),
            mode,
            status: InsertStatus::Failed,
            error: Some("emptyTranscript"@),
            duration_ms,
            asr_ms,
            has_audio,
            label,
        },
    )
}

/// The coordinator at the end of a session that failed: idle, cooling down, and without the text
/// that appeared while the user spoke.
pub open spec fn after_failure(c: Coordinator, now: u64) -> Coordinator {
    Coordinator {
        state: SessionState { phase: SessionPhase::Idle, ..c.state },
        live_insert: LiveInsert { prev_len: 0, ..c.live_insert },
        hotkey: HotkeyEdges {
            cooldown_until: Some((now + POST_SESSION_COOLDOWN) as u64),
            ..c.hotkey
        },
        ..c
    }
}

/// What comes after the transcript.
#[derive(Debug)]
pub enum TranscriptStep {
    /// Nothing was recognised, and the session is over.
    Empty(String),
    /// The text is to be inserted.
    Insert,
}

/// How text is inserted.
#[derive(Clone, Copy, PartialEq, Eq, Structural, Debug)]
pub enum InsertionPlan {
    /// Through the clipboard, or as the system does it.
    Insert,
    /// By keystrokes, and onto the clipboard where that fails.
    KeystrokesThenCopy,
    /// By keystrokes only.
    Keystrokes,
    /// Through the input method.
    InputMethod,
    /// Onto the clipboard only.
    CopyOnly,
    /// Not at all.
    Refuse,
}

/// The text that is inserted: what the engine recognised, in the preferred script.
pub fn text_to_insert(raw: &RawTranscript, pref: ChineseScriptPreference) -> (r: String)
    ensures
        r@ == script_preferred(raw.text@, pref),
{
    finalize_polished_text(owned(raw.text.as_str()), false, false, pref, false)
}

/// How text is inserted: where the window that had the focus has it again, as the system and the
/// user's choice want it; else, but for Linux, at most onto the clipboard.
pub open spec fn planned(
    platform: Platform,
    mode: WindowsInsertionMode,
    allow_fallback: bool,
    focus_ready: bool,
) -> InsertionPlan {
    if platform == Platform::Linux || (focus_ready && platform != Platform::Windows) {
        InsertionPlan::Insert
    } else if focus_ready {
        match mode {
            WindowsInsertionMode::SendInput => if allow_fallback {
                InsertionPlan::KeystrokesThenCopy
            } else {
                InsertionPlan::Keystrokes
            },
            WindowsInsertionMode::Paste => InsertionPlan::Insert,
            WindowsInsertionMode::Tsf => InsertionPlan::InputMethod,
        }
    } else if allow_fallback {
        InsertionPlan::CopyOnly
    } else {
        InsertionPlan::Refuse
    }
}

/// How text is inserted.
pub fn insertion_plan(
    platform: Platform,
    mode: WindowsInsertionMode,
    allow_fallback: bool,
    focus_ready: bool,
) -> (r: InsertionPlan)
    ensures
        r == planned(platform, mode, allow_fallback, focus_ready),
{
    if focus_ready {
        if platform != Platform::Windows {
            return InsertionPlan::Insert;
        }
        match mode {
            WindowsInsertionMode::SendInput => {
                if allow_fallback {
                    InsertionPlan::KeystrokesThenCopy
                } else {
                    InsertionPlan::Keystrokes
                }
            },
            WindowsInsertionMode::Paste => InsertionPlan::Insert,
            WindowsInsertionMode::Tsf => InsertionPlan::InputMethod,
        }
    } else if platform == Platform::Linux {
        InsertionPlan::Insert
    } else if allow_fallback {
        InsertionPlan::CopyOnly
    } else {
        InsertionPlan::Refuse
    }
}

/// A session that was cancelled must not insert, unless its text is at the cursor already.
pub open spec fn may_insert(state: SessionState, already_streamed: bool) -> bool {
    !state.cancelled || already_streamed
}

/// The coordinator once a session is inserting, or is left because it was cancelled.
pub open spec fn after_insert_gate(
    c: Coordinator,
    session: SessionId,
    already_streamed: bool,
) -> Coordinator {
    if may_insert(c.state, already_streamed) {
        Coordinator {
            state: SessionState { phase: SessionPhase::Inserting, ..c.state },
            live_insert: LiveInsert { prev_len: 0, ..c.live_insert },
            ..c
        }
    } else {
        after_finish_cancelled(c, session)
    }
}

/// A session that was inserted, or was to be: what is kept and told of it.
pub ghost struct Inserted {
    pub error: Option<Seq<char>>,
    pub failed: bool,
    pub message: Option<Seq<char>>,
}

/// What is kept and told of an insertion.
pub open spec fn inserted(
    platform: Platform,
    status: InsertStatus,
    focus_ready: bool,
    allow_fallback: bool,
    mode: WindowsInsertionMode,
) -> Inserted {
    let error = error_code(platform, status, false, focus_ready, allow_fallback, mode);
    let tsf = error == Some("windowsImeTsfRequired"@);
    Inserted {
        error,
        failed: tsf || status == InsertStatus::Failed,
        message: if tsf {
            Some("TSF 未上屏，已禁止非 TSF 兜底"@)
        } else {
            done_message(platform, status, false)
        },
    }
}

/// The coordinator once a session is over whose text was inserted, or was to be; but for what is
/// known of the engine.
pub open spec fn after_finish(c: Coordinator, now: u64) -> Coordinator {
    Coordinator {
        state: SessionState { phase: SessionPhase::Idle, focus_target: None, ..c.state },
        hotkey: HotkeyEdges {
            cooldown_until: Some((now + POST_SESSION_COOLDOWN) as u64),
            ..c.hotkey
        },
        ..c
    }
}

/// What the end of such a session asks for: it is kept, it counts as a use, and the capsule shows
/// what came of it.
pub open spec fn finish_asks(
    session: SessionId,
    created_at: Seq<char>,
    parts: EntryParts,
    told: Inserted,
    phase: SessionPhase,
    elapsed: u64,
) -> Seq<EffectView> {
    seq![
        EffectView::RestoreIme { session },
        EffectView::AppendHistory { entry: entry_of(session, created_at, parts) },
        EffectView::HistoryChanged,
        EffectView::BumpActivity,
        EffectView::Capsule {
            state: if told.failed {
                CapsuleState::Error
            } else {
                CapsuleState::Done
            },
            phase,
            elapsed_ms: elapsed,
            message: told.message,
            inserted_chars: Some(parts.text.len() as u32),
        },
        EffectView::ScheduleCapsuleIdle { delay_ms: CAPSULE_AUTO_HIDE_DELAY_MS },
    ]
}

/// What a session asks for in which nothing was recognised.
pub open spec fn empty_asks(c: Coordinator, entry: SessionRecord, session: SessionId, elapsed: u64) -> Seq<
    EffectView,
> {
    seq![
        EffectView::AppendHistory { entry },
        EffectView::HistoryChanged,
        error_capsule("没有识别到语音"@, c.state.phase, elapsed),
        EffectView::RestoreIme { session },
        EffectView::ScheduleCapsuleIdle { delay_ms: CAPSULE_AUTO_HIDE_DELAY_MS },
    ] + delete_effects(c.live_insert.prev_len)
}

/// What a session asks for whose text is to be inserted: its recording goes, unless all are kept.
pub open spec fn text_asks(
    c: Coordinator,
    session: SessionId,
    keep_recordings: bool,
    elapsed: u64,
) -> Seq<EffectView> {
    (if !keep_recordings && c.audio_archive_active {
        seq![EffectView::DeleteRecording { session }]
    } else {
        seq![]
    }).push(plain_capsule(CapsuleState::Polishing, c.state.phase, elapsed))
}

impl Coordinator {
    /// Ends the recording of a session that listens.
    pub fn end_session(&mut self, now: u64, out: &mut Vec<Effect>) -> (r: Option<EndStart>)
        ensures
            r == if old(self).state.phase == SessionPhase::Listening {
                Some(
                    EndStart {
                        session: old(self).state.session_id,
                        elapsed: elapsed_ms(old(self).state.started_at, now),
                    },
                )
            } else {
                None
            },
            *final(self) == after_end(*old(self)),
            effects(final(out)@) == effects(old(out)@) + end_asks(*old(self), now),
    {
        let session = match start_processing_if_listening(&mut self.state) {
            Some(session) => session,
            None => {
                assert(effects(out@) =~= effects(old(out)@) + end_asks(*old(self), now));
                return None;
            },
        };
        let elapsed: u64 = millis_between(self.state.started_at, now);
        put_capsule(out, CapsuleState::Transcribing, self.state.phase, elapsed);
        self.live_insert.enabled = false;
        assert(effects(out@) =~= effects(old(out)@) + end_asks(*old(self), now));
        Some(EndStart { session, elapsed })
    }

    /// Stops dictation by hand: a session that starts ends as soon as it has started.
    pub fn stop_dictation(&mut self, now: u64, out: &mut Vec<Effect>) -> (r: Option<EndStart>)
        ensures
            old(self).state.phase == SessionPhase::Starting ==> {
                &&& r is None
                &&& *final(self) == after_stop_request(*old(self))
                &&& effects(final(out)@) == effects(old(out)@) + stop_request_asks(*old(self), now)
            },
            old(self).state.phase != SessionPhase::Starting ==> {
                &&& r is Some <==> old(self).state.phase == SessionPhase::Listening
                &&& r matches Some(e) ==> e.session == old(self).state.session_id && e.elapsed
                    == elapsed_ms(old(self).state.started_at, now)
                &&& *final(self) == after_end(*old(self))
                &&& effects(final(out)@) == effects(old(out)@) + end_asks(*old(self), now)
            },
    {
        if self.state.phase == SessionPhase::Starting {
            self.request_stop_during_starting(now, out);
            return None;
        }
        self.end_session(now, out)
    }

    /// The tail of the recording is over: the recorder stops, the input source returns, and the
    /// engine of the session is to give its text. Without an engine the session is over.
    pub fn recording_ended(&mut self, session: SessionId, out: &mut Vec<Effect>) -> (r: Option<
        (Engine, Option<AsrCallLabel>),
    >)
        ensures
            ({
                let stopped = Coordinator {
                    recorder: slot_after(old(self).recorder, session),
                    asr: slot_after(old(self).asr, session),
                    asr_label: slot_after(old(self).asr_label, session),
                    live_insert: LiveInsert { prev_ime: None, ..old(self).live_insert },
                    ..*old(self)
                };
                let asks = effects(old(out)@) + recorder_end_effects(old(self).recorder, session)
                    + input_source_effects(old(self).live_insert.prev_ime);
                match owned_by(old(self).asr, session) {
                    Some(engine) => {
                        &&& r == Some((engine, owned_by(old(self).asr_label, session)))
                        &&& *final(self) == stopped
                        &&& effects(final(out)@) == asks
                    },
                    None => {
                        &&& r is None
                        &&& effects(final(out)@) == asks + leave_cancelled_asks(stopped, session)
                        &&& *final(self) == if finishes_cancel(stopped.state, session) {
                            after_finish_cancelled(stopped, session)
                        } else {
                            Coordinator {
                                state: idle_if_current(stopped.state, session),
                                ..stopped
                            }
                        }
                    },
                }
            }),
    {
        if take_session_resource(&mut self.recorder, session).is_some() {
            put(out, Effect::StopRecorder { session });
            put(out, Effect::ReleaseMute);
        }
        assert(effects(out@) =~= effects(old(out)@) + recorder_end_effects(
            old(self).recorder,
            session,
        ));
        let prev_ime = self.live_insert.prev_ime;
        self.live_insert.prev_ime = None;
        put_input_source(out, prev_ime);
        let engine = take_session_resource(&mut self.asr, session);
        let label = take_session_resource(&mut self.asr_label, session);
        let ghost asks = effects(out@);
        let ghost stopped = *self;
        match engine {
            Some(engine) => Some((engine, label)),
            None => {
                put(out, Effect::RestoreIme { session });
                if !self.finish_cancelled_processing(session, out) {
                    self.idle_if_session(session);
                }
                assert(effects(out@) =~= asks + leave_cancelled_asks(stopped, session));
                None
            },
        }
    }

    /// The engine has given its text, or has failed.
    pub fn transcribed(&mut self, engine: Engine, reply: TranscribeReply, out: &mut Vec<Effect>) -> (
    r: Result<RawTranscript, TranscribeFail>)
        ensures
            match reply {
                TranscribeReply::Text { text, duration_ms } => {
                    &&& r == Ok::<RawTranscript, TranscribeFail>(
                        RawTranscript { text, duration_ms },
                    )
                    &&& *final(self) == *old(self)
                    &&& effects(final(out)@) == effects(old(out)@)
                },
                TranscribeReply::Failed(e) => {
                    &&& r matches Err(f)
                    &&& f.user_msg@ == "识别失败: "@ + e@
                    &&& f.err@ == e@
                    &&& final(self).engine.failed("识别失败: "@ + e@)
                    &&& *final(self) == (Coordinator { engine: final(self).engine, ..*old(self) })
                    &&& effects(final(out)@) == effects(old(out)@).push(
                        EffectView::CancelAsr { engine },
                    )
                },
                TranscribeReply::TimedOut => {
                    &&& r matches Err(f)
                    &&& f.user_msg@ == "识别超时"@
                    &&& f.err@ == timeout_name(engine)
                    &&& final(self).engine.failed("识别超时"@)
                    &&& *final(self) == (Coordinator { engine: final(self).engine, ..*old(self) })
                    &&& effects(final(out)@) == effects(old(out)@).push(
                        EffectView::CancelAsr { engine },
                    )
                },
            },
    {
        match reply {
            TranscribeReply::Text { text, duration_ms } => Ok(RawTranscript { text, duration_ms }),
            TranscribeReply::Failed(e) => {
                let user_msg = join2("识别失败: ", e.as_str());
                self.engine_failed(owned(user_msg.as_str()));
                put(out, Effect::CancelAsr { engine });
                Err(TranscribeFail { user_msg, err: e })
            },
            TranscribeReply::TimedOut => {
                self.engine_failed(owned("识别超时"));
                put(out, Effect::CancelAsr { engine });
                let err = match engine {
                    Engine::Doubao => owned("doubao global timeout"),
                    Engine::GrokStt => owned("grok_stt global timeout"),
                };
                Err(TranscribeFail { user_msg: owned("识别超时"), err })
            },
        }
    }

    /// The session was cancelled while the engine was at work.
    pub fn transcription_cancelled(
        &mut self,
        session: SessionId,
        engine: Engine,
        out: &mut Vec<Effect>,
    )
        ensures
            *final(self) == after_finish_cancelled(*old(self), session),
            effects(final(out)@) == effects(old(out)@) + seq![EffectView::CancelAsr { engine }]
                + leave_cancelled_asks(*old(self), session),
    {
        put(out, Effect::CancelAsr { engine });
        self.leave_cancelled(session, out);
        assert(effects(out@) =~= effects(old(out)@) + seq![EffectView::CancelAsr { engine }]
            + leave_cancelled_asks(*old(self), session));
    }

    /// Leaves a session that was cancelled.
    pub fn leave_cancelled(&mut self, session: SessionId, out: &mut Vec<Effect>)
        ensures
            *final(self) == after_finish_cancelled(*old(self), session),
            effects(final(out)@) == effects(old(out)@) + leave_cancelled_asks(*old(self), session),
    {
        put(out, Effect::RestoreIme { session });
        self.finish_cancelled_processing(session, out);
        assert(effects(out@) =~= effects(old(out)@) + leave_cancelled_asks(*old(self), session));
    }

    /// Looks at what the engine came to, unless the session was cancelled meanwhile. The engine is
    /// closed where it gave its text.
    pub fn check_transcription(
        &mut self,
        session: SessionId,
        engine: Engine,
        outcome: Result<RawTranscript, TranscribeFail>,
        out: &mut Vec<Effect>,
    ) -> (r: AfterTranscription)
        ensures
            old(self).state.cancelled ==> {
                &&& r == AfterTranscription::Cancelled
                &&& *final(self) == after_finish_cancelled(*old(self), session)
                &&& effects(final(out)@) == effects(old(out)@) + leave_cancelled_asks(
                    *old(self),
                    session,
                )
            },
            !old(self).state.cancelled ==> {
                &&& *final(self) == *old(self)
                &&& match outcome {
                    Ok(raw) => {
                        &&& r == AfterTranscription::Text(raw)
                        &&& effects(final(out)@) == effects(old(out)@).push(
                            EffectView::CloseAsr { engine },
                        )
                    },
                    Err(fail) => {
                        &&& r == AfterTranscription::Retry(fail)
                        &&& effects(final(out)@) == effects(old(out)@)
                    },
                }
            },
    {
        if self.state.cancelled {
            self.leave_cancelled(session, out);
            return AfterTranscription::Cancelled;
        }
        match outcome {
            Ok(raw) => {
                put(out, Effect::CloseAsr { engine });
                AfterTranscription::Text(raw)
            },
            Err(fail) => AfterTranscription::Retry(fail),
        }
    }

    /// All retries failed: the session ends with an error, unless it was cancelled meanwhile.
    /// `label` is the engine that the session began with, `retry_label` the one tried last.
    pub fn retries_exhausted(
        &mut self,
        session: SessionId,
        fail: TranscribeFail,
        label: Option<AsrCallLabel>,
        retry_label: Option<AsrCallLabel>,
        elapsed: u64,
        asr_ms: u64,
        created_at: &str,
        mode: PolishMode,
        now: u64,
        out: &mut Vec<Effect>,
    ) -> (r: Result<(), String>)
        requires
            clock_has_room(now),
        ensures
            old(self).state.cancelled ==> {
                &&& r is Ok
                &&& *final(self) == after_finish_cancelled(*old(self), session)
                &&& effects(final(out)@) == effects(old(out)@) + leave_cancelled_asks(
                    *old(self),
                    session,
                )
            },
            !old(self).state.cancelled ==> {
                &&& r matches Err(e)
                &&& e@ == fail.err@
                &&& final(self).engine.failed(fail.err@)
                &&& *final(self) == (Coordinator {
                    engine: final(self).engine,
                    ..after_failure(*old(self), now)
                })
                &&& effects(final(out)@) == effects(old(out)@) + failure_asks(
                    *old(self),
                    session,
                    failed_entry(
                        session,
                        created_at@,
                        elapsed,
                        asr_ms,
                        mode,
                        old(self).audio_archive_active,
                        if retry_label is Some {
                            opt_label(retry_label)
                        } else {
                            opt_label(label)
                        },
                    ),
                    fail.user_msg@,
                    elapsed,
                )
            },
    {
        if self.state.cancelled {
            self.leave_cancelled(session, out);
            return Ok(());
        }
        let used = match retry_label {
            Some(l) => Some(l),
            None => label,
        };
        self.fail_dictation(session, fail, &used, elapsed, asr_ms, created_at, mode, now, out)
    }

    /// Ends a session whose recognition failed: the recording and an entry stay in the history.
    pub fn fail_dictation(
        &mut self,
        session: SessionId,
        fail: TranscribeFail,
        label: &Option<AsrCallLabel>,
        elapsed: u64,
        asr_ms: u64,
        created_at: &str,
        mode: PolishMode,
        now: u64,
        out: &mut Vec<Effect>,
    ) -> (r: Result<(), String>)
        requires
            clock_has_room(now),
        ensures
            r matches Err(e) && e@ == fail.err@,
            final(self).engine.failed(fail.err@),
            *final(self) == (Coordinator {
                engine: final(self).engine,
                ..after_failure(*old(self), now)
            }),
            effects(final(out)@) == effects(old(out)@) + failure_asks(
                *old(self),
                session,
                failed_entry(
                    session,
                    created_at@,
                    elapsed,
                    asr_ms,
                    mode,
                    old(self).audio_archive_active,
                    opt_label(*label),
                ),
                fail.user_msg@,
                elapsed,
            ),
    {
        self.engine_failed(owned(fail.err.as_str()));
        let temp_len: usize = self.live_insert.prev_len;
        self.live_insert.prev_len = 0;
        put_delete(out, temp_len);
        let entry = build_transcribe_failed_session(
            session,
            created_at,
            elapsed,
            asr_ms,
            mode,
            self.audio_archive_active,
            label,
        );
        put(out, Effect::AppendHistory { entry });
        put(out, Effect::HistoryChanged);
        put_error(out, fail.user_msg, self.state.phase, elapsed);
        put(out, Effect::RestoreIme { session });
        self.state.phase = SessionPhase::Idle;
        self.cool_down(now);
        put(out, Effect::ScheduleCapsuleIdle { delay_ms: CAPSULE_AUTO_HIDE_DELAY_MS });
        assert(effects(out@) =~= effects(old(out)@) + failure_asks(
            *old(self),
            session,
            entry@,
            fail.user_msg@,
            elapsed,
        ));
        Err(fail.err)
    }

    /// Takes the transcript. Where nothing was recognised, the session ends with an error; else the
    /// recording goes, unless the user keeps all, and the text is to be inserted.
    pub fn accept_transcript(
        &mut self,
        session: SessionId,
        raw: &RawTranscript,
        label: &Option<AsrCallLabel>,
        elapsed: u64,
        asr_ms: u64,
        created_at: &str,
        mode: PolishMode,
        keep_recordings: bool,
        now: u64,
        out: &mut Vec<Effect>,
    ) -> (r: TranscriptStep)
        requires
            clock_has_room(now),
        ensures
            blank(raw.text@) ==> {
                &&& r matches TranscriptStep::Empty(e)
                &&& e@ == "ASR returned empty transcript"@
                &&& *final(self) == after_failure(*old(self), now)
                &&& effects(final(out)@) == effects(old(out)@) + empty_asks(
                    *old(self),
                    empty_entry(
                        session,
                        created_at@,
                        raw.text@,
                        mode,
                        raw.duration_ms,
                        asr_ms,
                        old(self).audio_archive_active,
                        opt_label(*label),
                    ),
                    session,
                    elapsed,
                )
            },
            !blank(raw.text@) ==> {
                &&& r == TranscriptStep::Insert
                &&& *final(self) == (Coordinator {
                    audio_archive_active: old(self).audio_archive_active && keep_recordings,
                    ..*old(self)
                })
                &&& effects(final(out)@) == effects(old(out)@) + text_asks(
                    *old(self),
                    session,
                    keep_recordings,
                    elapsed,
                )
            },
    {
        if is_blank(raw.text.as_str()) {
            let entry = new_entry(
                session,
                created_at,
                raw.text.as_str(),
                "",
                mode,
                InsertStatus::Failed,
                Some(owned("emptyTranscript")),
                raw.duration_ms,
                asr_ms,
                self.audio_archive_active,
                label,
            );
            proof {
                reveal_strlit("");
                assert(""@ =~= Seq::<char>::empty());
            }
            put(out, Effect::AppendHistory { entry });
            put(out, Effect::HistoryChanged);
            put_error(out, owned("没有识别到语音"), self.state.phase, elapsed);
            put(out, Effect::RestoreIme { session });
            self.state.phase = SessionPhase::Idle;
            self.cool_down(now);
            put(out, Effect::ScheduleCapsuleIdle { delay_ms: CAPSULE_AUTO_HIDE_DELAY_MS });
            assert(effects(out@) =~= effects(old(out)@) + seq![
                EffectView::AppendHistory { entry: entry@ },
                EffectView::HistoryChanged,
                error_capsule("没有识别到语音"@, old(self).state.phase, elapsed),
                EffectView::RestoreIme { session },
                EffectView::ScheduleCapsuleIdle { delay_ms: CAPSULE_AUTO_HIDE_DELAY_MS },
            ]);
            let temp_len: usize = self.live_insert.prev_len;
            self.live_insert.prev_len = 0;
            put_delete(out, temp_len);
            assert(effects(out@) =~= effects(old(out)@) + empty_asks(
                *old(self),
                entry@,
                session,
                elapsed,
            ));
            return TranscriptStep::Empty(owned("ASR returned empty transcript"));
        }
        if !keep_recordings {
            if self.audio_archive_active {
                put(out, Effect::DeleteRecording { session });
            }
            self.audio_archive_active = false;
        }
        put_capsule(out, CapsuleState::Polishing, self.state.phase, elapsed);
        assert(effects(out@) =~= effects(old(out)@) + text_asks(
            *old(self),
            session,
            keep_recordings,
            elapsed,
        ));
        TranscriptStep::Insert
    }

    /// Passes the last point at which a session can be cancelled. From here on its text is inserted;
    /// what appeared while the user spoke makes room for it.
    pub fn enter_inserting(
        &mut self,
        session: SessionId,
        already_streamed: bool,
        out: &mut Vec<Effect>,
    ) -> (r: bool)
        ensures
            r == may_insert(old(self).state, already_streamed),
            *final(self) == after_insert_gate(*old(self), session, already_streamed),
            effects(final(out)@) == effects(old(out)@) + if r {
                delete_effects(old(self).live_insert.prev_len)
            } else {
                leave_cancelled_asks(*old(self), session)
            },
    {
        if self.state.cancelled && !already_streamed {
            self.leave_cancelled(session, out);
            return false;
        }
        self.state.phase = SessionPhase::Inserting;
        let temp_len: usize = self.live_insert.prev_len;
        self.live_insert.prev_len = 0;
        put_delete(out, temp_len);
        true
    }

    /// Ends a session whose text was inserted, or was to be.
    pub fn finish_session(
        &mut self,
        session: SessionId,
        platform: Platform,
        mode: WindowsInsertionMode,
        allow_fallback: bool,
        status: InsertStatus,
        focus_ready: bool,
        raw: &RawTranscript,
        text: &str,
        label: &Option<AsrCallLabel>,
        elapsed: u64,
        asr_ms: u64,
        created_at: &str,
        now: u64,
        out: &mut Vec<Effect>,
    )
        requires
            clock_has_room(now),
        ensures
            ({
                let told = inserted(platform, status, focus_ready, allow_fallback, mode);
                &&& *final(self) == (Coordinator {
                    engine: final(self).engine,
                    ..after_finish(*old(self), now)
                })
                &&& told.failed ==> final(self).engine.failed("会话未完成"@)
                &&& !told.failed ==> final(self).engine == (EngineStatus { ok: true, error: None })
                &&& effects(final(out)@) == effects(old(out)@) + finish_asks(
                    session,
                    created_at@,
                    EntryParts {
                        raw: raw.text@,
                        text: text@,
                        mode: PolishMode::Raw,
                        status,
                        error: told.error,
                        duration_ms: raw.duration_ms,
                        asr_ms,
                        has_audio: old(self).audio_archive_active,
                        label: opt_label(*label),
                    },
                    told,
                    old(self).state.phase,
                    elapsed,
                )
            }),
    {
        put(out, Effect::RestoreIme { session });
        let count: usize = to_chars(text).len();
        let code = dictation_error_code(
            platform,
            status,
            false,
            focus_ready,
            allow_fallback,
            mode,
        );
        let tsf = match code {
            Some(c) => same(c, "windowsImeTsfRequired"),
            None => false,
        };
        let error = match code {
            Some(c) => Some(owned(c)),
            None => None,
        };
        let entry = new_entry(
            session,
            created_at,
            raw.text.as_str(),
            text,
            PolishMode::Raw,
            status,
            error,
            raw.duration_ms,
            asr_ms,
            self.audio_archive_active,
            label,
        );
        put(out, Effect::AppendHistory { entry });
        put(out, Effect::HistoryChanged);
        put(out, Effect::BumpActivity);
        let message = if tsf {
            Some(owned("TSF 未上屏，已禁止非 TSF 兜底"))
        } else {
            default_done_message(platform, status, false)
        };
        let failed = tsf || status == InsertStatus::Failed;
        if failed {
            self.engine_failed(owned("会话未完成"));
        } else {
            self.engine = EngineStatus { ok: true, error: None };
        }
        let capsule_state = if failed {
            CapsuleState::Error
        } else {
            CapsuleState::Done
        };
        put(
            out,
            Effect::Capsule {
                state: capsule_state,
                phase: self.state.phase,
                elapsed_ms: elapsed,
                message,
                inserted_chars: Some(count as u32),
            },
        );
        self.state.phase = SessionPhase::Idle;
        self.state.focus_target = None;
        self.cool_down(now);
        put(out, Effect::ScheduleCapsuleIdle { delay_ms: CAPSULE_AUTO_HIDE_DELAY_MS });
        assert(effects(out@) =~= effects(old(out)@) + seq![
            EffectView::RestoreIme { session },
            EffectView::AppendHistory { entry: entry@ },
            EffectView::HistoryChanged,
            EffectView::BumpActivity,
            EffectView::Capsule {
                state: capsule_state,
                phase: old(self).state.phase,
                elapsed_ms: elapsed,
                message: opt_text(message),
                inserted_chars: Some(text@.len() as u32),
            },
            EffectView::ScheduleCapsuleIdle { delay_ms: CAPSULE_AUTO_HIDE_DELAY_MS },
        ]);
    }
}

/// What the end of a failed session asks for.
pub open spec fn failure_asks(
    c: Coordinator,
    id: SessionId,
    entry: SessionRecord,
    user_msg: Seq<char>,
    elapsed: u64,
) -> Seq<EffectView> {
    delete_effects(c.live_insert.prev_len) + seq![
        EffectView::AppendHistory { entry },
        EffectView::HistoryChanged,
        error_capsule(user_msg, c.state.phase, elapsed),
        EffectView::RestoreIme { session: id },
        EffectView::ScheduleCapsuleIdle { delay_ms: CAPSULE_AUTO_HIDE_DELAY_MS },
    ]
}

/// A session that was cancelled before its text was inserted never inserts it: it goes back to idle
/// instead, and nothing of it is kept in the history.
pub proof fn law_cancelled_session_is_never_inserted(c: Coordinator, session: SessionId)
    requires
        c.state.session_id == session,
        c.state.phase == SessionPhase::Processing,
        c.state.cancelled,
    ensures
        !may_insert(c.state, false),
        after_insert_gate(c, session, false).state.phase == SessionPhase::Idle,
        after_insert_gate(c, session, false).state.focus_target is None,
        forall|e: SessionRecord|
            !leave_cancelled_asks(c, session).contains(EffectView::AppendHistory { entry: e }),
{
    assert forall|e: SessionRecord| !leave_cancelled_asks(c, session).contains(
        EffectView::AppendHistory { entry: e },
    ) by {
        let asks = leave_cancelled_asks(c, session);
        assert(asks.len() == 2);
        assert(asks[0] is RestoreIme);
        assert(asks[1] is ScheduleCapsuleIdle);
    }
}

/// Whichever way a recorder is stopped, at the end of the recording, while the session still starts
/// or because the session is dropped, the system's output is given back right after.
pub proof fn law_stopped_recorder_gives_the_output_back(
    slot: Option<SessionResource<()>>,
    state: SessionState,
    now: u64,
    i: int,
)
    ensures
        ({
            let id = state.session_id;
            &&& gives_output_back(recorder_end_effects(slot, id), i)
            &&& gives_output_back(stop_effects(slot, id), i)
            &&& gives_output_back(pending_stop_effects(state, slot, now), i)
        }),
{
}

/// Where the recorder is stopped at that place, the output is given back at the next.
pub open spec fn gives_output_back(asks: Seq<EffectView>, i: int) -> bool {
    0 <= i < asks.len() && asks[i] is StopRecorder ==> i + 1 < asks.len() && asks[i + 1]
        == EffectView::ReleaseMute
}

/// However a session fails or is cancelled, it is idle afterwards and the capsule is to be hidden.
pub proof fn law_capsule_goes_when_a_session_fails(
    c: Coordinator,
    entry: SessionRecord,
    user_msg: Seq<char>,
    elapsed: u64,
    now: u64,
)
    requires
        clock_has_room(now),
    ensures
        ({
            let id = c.state.session_id;
            &&& after_failure(c, now).state.phase == SessionPhase::Idle
            &&& failure_asks(c, id, entry, user_msg, elapsed).last() is ScheduleCapsuleIdle
            &&& cancellable(c.state.phase) ==> cancel_asks(c).contains(
                EffectView::ScheduleCapsuleIdle { delay_ms: CAPSULE_CANCEL_HIDE_DELAY_MS },
            )
            &&& cancellable(c.state.phase) && c.state.phase != SessionPhase::Processing
                ==> after_cancel(c, now).state.phase == SessionPhase::Idle
            &&& c.state.phase == SessionPhase::Processing ==> after_finish_cancelled(
                after_cancel(c, now),
                id,
            ).state.phase == SessionPhase::Idle
        }),
{
    if cancellable(c.state.phase) {
        let before = delete_effects(c.live_insert.prev_len) + input_source_effects(
            c.live_insert.prev_ime,
        );
        let hide = EffectView::ScheduleCapsuleIdle { delay_ms: CAPSULE_CANCEL_HIDE_DELAY_MS };
        assert(cancel_asks(c)[before.len() as int + 1] == hide);
    }
}

/// The entry of every session has the session's id, so that its recording can be found, and tells
/// of the session what there is to tell: when it was, what was recognised and inserted and how that
/// went, how long it took, and which engine was used.
pub proof fn law_entry_has_the_session_id(id: SessionId, created_at: Seq<char>, p: EntryParts)
    ensures
        ({
            let e = entry_of(id, created_at, p);
            &&& e.id == id.text()
            &&& e.created_at == created_at
            &&& e.source == HistorySource::Voice
            &&& e.raw_transcript == p.raw
            &&& e.final_text == p.text
            &&& e.mode == p.mode
            &&& e.insert_status == p.status
            &&& e.error_code == p.error
            &&& e.duration_ms == Some(p.duration_ms)
            &&& e.asr_ms == Some(p.asr_ms)
            &&& e.has_audio_recording == Some(p.has_audio)
            &&& p.label matches Some(l) ==> e.asr_provider == Some(l.provider) && e.asr_model
                == l.model
            &&& p.label is None ==> e.asr_provider is None && e.asr_model is None
            &&& !e.translation_active && e.llm_provider is None && e.polish_ms is None
        }),
{
}

/// Text never goes to a window that did not have the focus: without it, text is put onto the
/// clipboard at most, and that only where the user allows it. Linux inserts through the input
/// method, which knows where the cursor is.
pub proof fn law_text_goes_to_the_right_window(
    platform: Platform,
    mode: WindowsInsertionMode,
    allow_fallback: bool,
)
    ensures
        planned(Platform::Linux, mode, allow_fallback, false) == InsertionPlan::Insert,
        platform != Platform::Linux && allow_fallback ==> planned(
            platform,
            mode,
            allow_fallback,
            false,
        ) == InsertionPlan::CopyOnly,
        platform != Platform::Linux && !allow_fallback ==> planned(
            platform,
            mode,
            allow_fallback,
            false,
        ) == InsertionPlan::Refuse,
{
}

/// With the focus back, text is always inserted: as the user has chosen on Windows, and as the
/// system does it elsewhere. It is copied in its place only where the user allows that.
pub proof fn law_text_is_inserted_with_the_focus(
    platform: Platform,
    mode: WindowsInsertionMode,
    allow_fallback: bool,
)
    ensures
        ({
            let plan = planned(platform, mode, allow_fallback, true);
            &&& plan != InsertionPlan::Refuse && plan != InsertionPlan::CopyOnly
            &&& platform != Platform::Windows ==> plan == InsertionPlan::Insert
            &&& platform == Platform::Windows ==> {
                &&& mode == WindowsInsertionMode::Tsf <==> plan == InsertionPlan::InputMethod
                &&& mode == WindowsInsertionMode::Paste <==> plan == InsertionPlan::Insert
                &&& mode == WindowsInsertionMode::SendInput && allow_fallback <==> plan
                    == InsertionPlan::KeystrokesThenCopy
                &&& mode == WindowsInsertionMode::SendInput && !allow_fallback <==> plan
                    == InsertionPlan::Keystrokes
            }
        }),
{
}

/// A session that listens is processed once it ends, and nothing more appears while it is; a session
/// in any other phase does not end by that.
pub proof fn law_listening_ends_in_processing(c: Coordinator, now: u64)
    ensures
        c.state.phase == SessionPhase::Listening ==> {
            let after = after_end(c);
            &&& after.state.phase == SessionPhase::Processing
            &&& after.state.session_id == c.state.session_id
            &&& after.state.cancelled == c.state.cancelled
            &&& !after.live_insert.enabled
            &&& after.live_insert.prev_len == c.live_insert.prev_len
            &&& after.recorder == c.recorder && after.asr == c.asr
            &&& end_asks(c, now).len() == 1
            &&& end_asks(c, now)[0] matches EffectView::Capsule { state, elapsed_ms, .. }
            &&& state == CapsuleState::Transcribing
            &&& now >= c.state.started_at ==> 1_000_000 * elapsed_ms <= now - c.state.started_at
                < 1_000_000 * (elapsed_ms + 1)
        },
        c.state.phase != SessionPhase::Listening ==> after_end(c) == c && end_asks(c, now).len() == 0,
{
}

/// A session whose text was inserted is over: it is kept in the history with just that text, it
/// counts as a use, the capsule tells how many characters there were and goes after two seconds, and
/// for six tenths of a second no press that toggles begins another.
pub proof fn law_finished_session_is_kept(
    c: Coordinator,
    session: SessionId,
    created_at: Seq<char>,
    parts: EntryParts,
    told: Inserted,
    elapsed: u64,
    now: u64,
)
    requires
        clock_has_room(now),
        parts.text.len() <= u32::MAX,
    ensures
        ({
            let asks = finish_asks(session, created_at, parts, told, c.state.phase, elapsed);
            let after = after_finish(c, now);
            &&& after.state.phase == SessionPhase::Idle
            &&& after.state.focus_target is None
            &&& after.state.session_id == c.state.session_id
            &&& after.hotkey.cooldown_until is Some
            &&& after.hotkey.cooldown_until->0 == now + 600_000_000
            &&& asks.len() == 6
            &&& asks[0] == EffectView::RestoreIme { session }
            &&& asks[1] matches EffectView::AppendHistory { entry }
            &&& entry.id == session.text()
            &&& entry.final_text == parts.text
            &&& entry.raw_transcript == parts.raw
            &&& entry.insert_status == parts.status
            &&& asks[2] == EffectView::HistoryChanged
            &&& asks[3] == EffectView::BumpActivity
            &&& asks[4] matches EffectView::Capsule { state, message, inserted_chars, elapsed_ms, .. }
            &&& state == CapsuleState::Error <==> told.failed
            &&& state == CapsuleState::Done <==> !told.failed
            &&& message == told.message
            &&& inserted_chars is Some && inserted_chars->0 == parts.text.len()
            &&& elapsed_ms == elapsed
            &&& asks[5] == EffectView::ScheduleCapsuleIdle { delay_ms: 2000 }
        }),
{
}

/// The user is told the truth about an insertion: nothing more where the text is known to have
/// arrived, and else what became of it. It counts as failed just where it failed, and on Windows
/// the reason is told where nothing but the input method was allowed.
pub proof fn law_insertion_is_told(
    platform: Platform,
    status: InsertStatus,
    focus_ready: bool,
    allow_fallback: bool,
    mode: WindowsInsertionMode,
)
    ensures
        ({
            let told = inserted(platform, status, focus_ready, allow_fallback, mode);
            let tsf_only = platform == Platform::Windows && mode == WindowsInsertionMode::Tsf
                && !allow_fallback;
            &&& told.failed <==> status == InsertStatus::Failed
            &&& told.message is None <==> status == InsertStatus::Inserted
            &&& status != InsertStatus::Failed ==> told.error is None
            &&& status == InsertStatus::Failed && !focus_ready ==> told.error == Some(
                "focusRestoreFailed"@,
            )
            &&& status == InsertStatus::Failed && focus_ready ==> told.error == if tsf_only {
                Some("windowsImeTsfRequired"@)
            } else {
                None
            }
            &&& status == InsertStatus::Failed ==> told.message == if focus_ready && tsf_only {
                Some("TSF 未上屏，已禁止非 TSF 兜底"@)
            } else {
                Some("插入失败"@)
            }
            &&& status == InsertStatus::PasteSent ==> told.message == Some("已尝试粘贴"@)
            &&& status == InsertStatus::CopiedFallback ==> told.message == if platform
                == Platform::Windows {
                Some("已复制，请 Ctrl+V"@)
            } else {
                Some("已复制，请粘贴"@)
            }
        }),
{
    reveal_strlit("focusRestoreFailed");
    reveal_strlit("windowsImeTsfRequired");
    assert("focusRestoreFailed"@.len() != "windowsImeTsfRequired"@.len());
}

/// A recording stays where the user keeps all of them, and where nothing was recognised in it, so
/// that it can be tried again; once its text is there, it goes.
pub proof fn law_recording_stays_while_it_is_needed(
    c: Coordinator,
    entry: SessionRecord,
    session: SessionId,
    keep_recordings: bool,
    elapsed: u64,
)
    ensures
        text_asks(c, session, keep_recordings, elapsed).contains(
            EffectView::DeleteRecording { session },
        ) <==> c.audio_archive_active && !keep_recordings,
        text_asks(c, session, keep_recordings, elapsed).last() is Capsule,
        !empty_asks(c, entry, session, elapsed).contains(EffectView::DeleteRecording { session }),
        !failure_asks(c, session, entry, seq![], elapsed).contains(
            EffectView::DeleteRecording { session },
        ),
        empty_asks(c, entry, session, elapsed)[0] == (EffectView::AppendHistory { entry }),
        failure_asks(c, session, entry, seq![], elapsed).contains(
            EffectView::AppendHistory { entry },
        ),
{
    let asks = text_asks(c, session, keep_recordings, elapsed);
    if c.audio_archive_active && !keep_recordings {
        assert(asks[0] == EffectView::DeleteRecording { session });
    } else {
        assert(asks.len() == 1);
    }
    let failed = failure_asks(c, session, entry, seq![], elapsed);
    let k: int = if c.live_insert.prev_len > 0 {
        1
    } else {
        0
    };
    assert(failed[k] == EffectView::AppendHistory { entry });
}

/// The entry of a session that failed, or in which nothing was recognised, says so, and holds no
/// text that was inserted.
pub proof fn law_failed_entry_says_so(
    id: SessionId,
    created_at: Seq<char>,
    raw: Seq<char>,
    mode: PolishMode,
    duration_ms: u64,
    asr_ms: u64,
    has_audio: bool,
    label: Option<LabelRecord>,
)
    ensures
        ({
            let failed = failed_entry(id, created_at, duration_ms, asr_ms, mode, has_audio, label);
            let empty = empty_entry(
                id,
                created_at,
                raw,
                mode,
                duration_ms,
                asr_ms,
                has_audio,
                label,
            );
            &&& failed.insert_status == InsertStatus::Failed
            &&& failed.error_code == Some("transcribeFailed"@)
            &&& failed.final_text.len() == 0 && failed.raw_transcript.len() == 0
            &&& empty.insert_status == InsertStatus::Failed
            &&& empty.error_code == Some("emptyTranscript"@)
            &&& empty.final_text.len() == 0 && empty.raw_transcript == raw
            &&& failed.id == id.text() && empty.id == id.text()
            &&& failed.has_audio_recording == Some(has_audio)
            &&& empty.has_audio_recording == Some(has_audio)
            &&& failed.duration_ms == Some(duration_ms) && empty.duration_ms == Some(duration_ms)
        }),
{
}

/// A session that failed leaves no text of its own at the cursor, shows why, and lets no press that
/// toggles begin another for six tenths of a second.
pub proof fn law_failure_cleans_up(
    c: Coordinator,
    entry: SessionRecord,
    user_msg: Seq<char>,
    elapsed: u64,
    now: u64,
)
    requires
        clock_has_room(now),
    ensures
        ({
            let id = c.state.session_id;
            let asks = failure_asks(c, id, entry, user_msg, elapsed);
            let shown = c.live_insert.prev_len;
            let after = after_failure(c, now);
            &&& shown > 0 ==> asks[0] == EffectView::DeleteChars { count: shown }
            &&& after.live_insert.prev_len == 0
            &&& after.hotkey.cooldown_until is Some
            &&& after.hotkey.cooldown_until->0 == now + 600_000_000
            &&& asks.last() == EffectView::ScheduleCapsuleIdle { delay_ms: 2000 }
            &&& asks.len() == if shown > 0 {
                6int
            } else {
                5int
            }
            &&& asks[asks.len() - 5] == EffectView::AppendHistory { entry }
            &&& asks[asks.len() - 4] == EffectView::HistoryChanged
            &&& asks[asks.len() - 3] == EffectView::Capsule {
                state: CapsuleState::Error,
                phase: c.state.phase,
                elapsed_ms: elapsed,
                message: Some(user_msg),
                inserted_chars: None,
            }
            &&& asks[asks.len() - 2] == EffectView::RestoreIme { session: id }
            &&& after.state.phase == SessionPhase::Idle
        }),
{
}

/// Where text appeared while the user spoke, it makes room for the final text, so that nothing
/// stands at the cursor twice.
pub proof fn law_final_text_replaces_the_provisional_one(
    c: Coordinator,
    session: SessionId,
    already_streamed: bool,
)
    requires
        !c.state.cancelled,
    ensures
        may_insert(c.state, already_streamed),
        after_insert_gate(c, session, already_streamed).state.phase == SessionPhase::Inserting,
        after_insert_gate(c, session, already_streamed).live_insert.prev_len == 0,
        c.live_insert.prev_len > 0 ==> delete_effects(c.live_insert.prev_len) == seq![
            EffectView::DeleteChars { count: c.live_insert.prev_len },
        ],
{
}

/// A session in which nothing was recognised is kept with its entry, and the user is told so for two
/// seconds; text that appeared while they spoke goes. It does not count as a use.
pub proof fn law_silent_session_is_told(
    c: Coordinator,
    entry: SessionRecord,
    session: SessionId,
    elapsed: u64,
)
    ensures
        ({
            let asks = empty_asks(c, entry, session, elapsed);
            &&& asks[0] == EffectView::AppendHistory { entry }
            &&& asks[1] == EffectView::HistoryChanged
            &&& asks[2] == EffectView::Capsule {
                state: CapsuleState::Error,
                phase: c.state.phase,
                elapsed_ms: elapsed,
                message: Some("没有识别到语音"@),
                inserted_chars: None,
            }
            &&& asks[3] == EffectView::RestoreIme { session }
            &&& asks[4] == EffectView::ScheduleCapsuleIdle { delay_ms: 2000 }
            &&& c.live_insert.prev_len == 0 ==> asks.len() == 5
            &&& c.live_insert.prev_len > 0 ==> asks.len() == 6 && asks[5]
                == EffectView::DeleteChars { count: c.live_insert.prev_len }
        }),
{
}

/// An engine that takes too long is told by its name.
pub proof fn law_slow_engine_is_named(engine: Engine)
    ensures
        timeout_name(Engine::Doubao) == "doubao global timeout"@,
        timeout_name(Engine::GrokStt) == "grok_stt global timeout"@,
{
}

} // verus!
