//! Beginning a session: from the press of the key to the moment when audio flows to the engine.
//!
//! The caller runs the steps in order: [`Coordinator::begin_session`], the look at the microphone,
//! [`Coordinator::begin_with_microphone`], the recorder, [`Coordinator::recorder_started`], the
//! switch of the input source where text appears while the user speaks, the engine, and
//! [`Coordinator::session_opened`].
use vstd::prelude::*;
use vstd::string::*;

use crate::coordinator::asr_wiring::{
    choose_engine, credential_error, doubao_name, ensure_asr_credentials, names_doubao,
    provider_credentials,
};
use crate::coordinator::inner::{
    input_source_effects, label_of, put_input_source, Coordinator, LabelRecord, LiveInsert,
    CapsuleTrack, CAPSULE_AUTO_HIDE_DELAY_MS,
};
use crate::coordinator::resources::{
    cancel_asr_for_session, cancel_effects, discard_startup_resources_for_session, effects,
    error_capsule, pending_stop_effects, plain_capsule, put, put_capsule, put_error, slot_after,
    slot_after_pending_stop, stop_effects, stop_recorder_if_pending_start_stop, Effect, EffectView,
    Engine, SessionResource,
};
use crate::coordinator_state::{
    begin_session_state, finish_starting_session_state, idle_if_current, race_of,
    startup_race_status, BeginOutcome, SessionId, SessionPhase, SessionState, StartupRaceStatus,
};
use crate::providers::{found, records, Provider, ProviderRecord};
use crate::recorder::RecorderError;
use crate::text::{join2, owned};
use crate::types::{CapsuleState, Platform, WindowsInsertionMode};

verus! {

/// What comes after the first step.
#[derive(Debug)]
pub enum BeginStep {
    /// There is nothing more to do.
    Done(Result<(), String>),
    /// Look whether the microphone may be used.
    CheckMicrophone { session: SessionId },
}

/// What a session asks for as it begins.
pub open spec fn opening_asks(
    platform: Platform,
    mode: WindowsInsertionMode,
    session: SessionId,
) -> Seq<EffectView> {
    (if platform == Platform::Windows && mode == WindowsInsertionMode::Tsf {
        seq![EffectView::PrepareIme { session }]
    } else {
        seq![]
    }).push(plain_capsule(CapsuleState::Recording, SessionPhase::Starting, 0))
}

/// The state of a session that has just begun.
pub open spec fn begun(
    session: SessionId,
    now: u64,
    focus_target: Option<usize>,
    front_app: Option<String>,
) -> SessionState {
    SessionState {
        phase: SessionPhase::Starting,
        started_at: now,
        pending_stop: false,
        cancelled: false,
        focus_target,
        session_id: session,
        front_app,
    }
}

/// What comes after the look at the microphone.
#[derive(Debug)]
pub enum RecorderStep {
    Done(Result<(), String>),
    /// Start the recorder.
    StartRecorder { engine: Engine },
}

/// The engine for dictation, its label, and the credentials that go with it.
pub open spec fn chosen(providers: Seq<ProviderRecord>, active: Seq<char>) -> Option<
    (Engine, LabelRecord, Option<(Seq<char>, Seq<char>)>),
> {
    if names_doubao(active) {
        Some((Engine::Doubao, label_of(doubao_name(providers), None), None))
    } else {
        match found(providers, active) {
            Some(p) => Some(
                (Engine::GrokStt, label_of(p.name, None), Some(provider_credentials(p))),
            ),
            None => None,
        }
    }
}

/// What comes after the engine has answered.
#[derive(Debug)]
pub enum OpenStep {
    Done(Result<(), String>),
    /// The session runs, and a stop is waiting: end it.
    EndNow,
}

/// What dropping a session that does not start asks for.
pub open spec fn drop_asks(c: Coordinator, session: SessionId) -> Seq<EffectView> {
    stop_effects(c.recorder, session) + cancel_effects(c.asr, session) + seq![
        EffectView::RestoreIme { session },
    ]
}

/// The coordinator without what was set up for a session.
pub open spec fn dropped(c: Coordinator, session: SessionId) -> Coordinator {
    Coordinator {
        recorder: slot_after(c.recorder, session),
        asr: slot_after(c.asr, session),
        ..c
    }
}

/// The coordinator after the start of a session is finished.
pub open spec fn after_finish_starting(c: Coordinator, session: SessionId) -> Coordinator {
    match race_of(c.state, session) {
        StartupRaceStatus::StaleContinuation => dropped(c, session),
        StartupRaceStatus::CancelRaced => Coordinator {
            state: idle_if_current(c.state, session),
            ..dropped(c, session)
        },
        StartupRaceStatus::ActiveStarting => Coordinator {
            state: SessionState {
                phase: SessionPhase::Listening,
                pending_stop: false,
                ..c.state
            },
            ..c
        },
    }
}

/// What finishing the start of a session asks for.
pub open spec fn finish_starting_asks(c: Coordinator, session: SessionId) -> Seq<EffectView> {
    if race_of(c.state, session) == StartupRaceStatus::ActiveStarting {
        seq![]
    } else {
        drop_asks(c, session)
    }
}

impl Coordinator {
    /// Begins a session, where none is under way. The capsule shows at once; an engine that cannot
    /// be used ends the session again. A dry run listens without a recorder.
    pub fn begin_session(
        &mut self,
        platform: Platform,
        mode: WindowsInsertionMode,
        providers: &[Provider],
        active_asr: &str,
        now: u64,
        focus_target: Option<usize>,
        front_app: Option<String>,
        dry_run: bool,
        out: &mut Vec<Effect>,
    ) -> (r: BeginStep)
        ensures
            old(self).state.phase != SessionPhase::Idle ==> {
                &&& r == BeginStep::Done(Ok(()))
                &&& *final(self) == *old(self)
                &&& effects(final(out)@) == effects(old(out)@)
            },
            old(self).state.phase == SessionPhase::Idle ==> {
                let id = final(self).state.session_id;
                let state = begun(id, now, focus_target, front_app);
                let error = credential_error(records(providers@), active_asr@);
                let opened = effects(old(out)@) + opening_asks(platform, mode, id);
                &&& id.value != 0
                &&& *final(self) == (Coordinator {
                    state: if dry_run {
                        SessionState { phase: SessionPhase::Listening, ..state }
                    } else if error is Some {
                        SessionState { phase: SessionPhase::Idle, ..state }
                    } else {
                        state
                    },
                    translation_modifier_seen: false,
                    capsule: CapsuleTrack {
                        warming: !dry_run || old(self).capsule.warming,
                        ..old(self).capsule
                    },
                    ..*old(self)
                })
                &&& if dry_run {
                    r == BeginStep::Done(Ok(())) && effects(final(out)@) == opened
                } else {
                    match error {
                        Some(m) => {
                            &&& r matches BeginStep::Done(Err(e))
                            &&& e@ == m
                            &&& effects(final(out)@) == opened + seq![
                                error_capsule(m, SessionPhase::Starting, 0),
                                EffectView::RestoreIme { session: id },
                            ]
                        },
                        None => {
                            &&& r == BeginStep::CheckMicrophone { session: id }
                            &&& effects(final(out)@) == opened
                        },
                    }
                }
            },
    {
        let session = match begin_session_state(&mut self.state, now, focus_target, front_app) {
            Some(session) => session,
            None => {
                return BeginStep::Done(Ok(()));
            },
        };
        if platform == Platform::Windows && mode == WindowsInsertionMode::Tsf {
            put(out, Effect::PrepareIme { session });
        }
        self.translation_modifier_seen = false;
        if dry_run {
            put_capsule(out, CapsuleState::Recording, self.state.phase, 0);
            self.state.phase = SessionPhase::Listening;
            assert(effects(out@) =~= effects(old(out)@) + opening_asks(platform, mode, session));
            return BeginStep::Done(Ok(()));
        }
        self.capsule.warming = true;
        put_capsule(out, CapsuleState::Recording, self.state.phase, 0);
        let ghost opened = effects(out@);
        assert(opened =~= effects(old(out)@) + opening_asks(platform, mode, session));
        match ensure_asr_credentials(providers, active_asr) {
            Ok(_) => {},
            Err(message) => {
                put_error(out, owned(message.as_str()), self.state.phase, 0);
                put(out, Effect::RestoreIme { session });
                self.state.phase = SessionPhase::Idle;
                assert(effects(out@) =~= opened + seq![
                    error_capsule(message@, SessionPhase::Starting, 0),
                    EffectView::RestoreIme { session },
                ]);
                return BeginStep::Done(Err(message));
            },
        }
        BeginStep::CheckMicrophone { session }
    }

    /// Goes on after the look at the microphone: chooses the engine, or gives up.
    pub fn begin_with_microphone(
        &mut self,
        session: SessionId,
        permission: Result<(), String>,
        providers: &[Provider],
        active_asr: &str,
        out: &mut Vec<Effect>,
    ) -> (r: RecorderStep)
        ensures
            match permission {
                Err(m) => {
                    &&& r matches RecorderStep::Done(Err(e))
                    &&& e@ == m@
                    &&& *final(self) == (Coordinator {
                        state: SessionState { phase: SessionPhase::Idle, ..old(self).state },
                        ..*old(self)
                    })
                    &&& effects(final(out)@) == effects(old(out)@) + seq![
                        error_capsule(m@, old(self).state.phase, 0),
                        EffectView::RestoreIme { session },
                        EffectView::ScheduleCapsuleIdle { delay_ms: CAPSULE_AUTO_HIDE_DELAY_MS },
                    ]
                },
                Ok(_) => match chosen(records(providers@), active_asr@) {
                    None => {
                        &&& r == RecorderStep::Done(Ok(()))
                        &&& *final(self) == *old(self)
                        &&& effects(final(out)@) == effects(old(out)@)
                    },
                    Some((engine, label, credentials)) => {
                        &&& r == RecorderStep::StartRecorder { engine }
                        &&& final(self).asr == Some(
                            SessionResource { session_id: session, resource: engine },
                        )
                        &&& final(self).asr_label is Some
                        &&& final(self).asr_label->0.session_id == session
                        &&& final(self).asr_label->0.resource@ == label
                        &&& *final(self) == (Coordinator {
                            asr: final(self).asr,
                            asr_label: final(self).asr_label,
                            ..*old(self)
                        })
                        &&& effects(final(out)@) == effects(old(out)@) + match credentials {
                            Some((url, api_key)) => seq![
                                EffectView::SaveGrokCredentials { url, api_key },
                            ],
                            None => seq![],
                        }
                    },
                },
            },
    {
        match permission {
            Ok(_) => {},
            Err(message) => {
                put_error(out, owned(message.as_str()), self.state.phase, 0);
                put(out, Effect::RestoreIme { session });
                self.state.phase = SessionPhase::Idle;
                put(out, Effect::ScheduleCapsuleIdle { delay_ms: CAPSULE_AUTO_HIDE_DELAY_MS });
                assert(effects(out@) =~= effects(old(out)@) + seq![
                    error_capsule(message@, old(self).state.phase, 0),
                    EffectView::RestoreIme { session },
                    EffectView::ScheduleCapsuleIdle { delay_ms: CAPSULE_AUTO_HIDE_DELAY_MS },
                ]);
                return RecorderStep::Done(Err(message));
            },
        }
        match choose_engine(providers, active_asr) {
            Some(choice) => {
                match choice.credentials {
                    Some((url, api_key)) => {
                        put(out, Effect::SaveGrokCredentials { url, api_key });
                        assert(effects(out@) =~= effects(old(out)@) + seq![
                            EffectView::SaveGrokCredentials { url: url@, api_key: api_key@ },
                        ]);
                    },
                    None => {
                        assert(effects(out@) =~= effects(old(out)@) + Seq::<EffectView>::empty());
                    },
                }
                self.store_asr_for_session(session, choice.engine, choice.label);
                RecorderStep::StartRecorder { engine: choice.engine }
            },
            None => RecorderStep::Done(Ok(())),
        }
    }

    /// The recorder has started, or has failed to. Where it runs, `Ok` tells whether the recording
    /// is written to disk.
    pub fn recorder_started(
        &mut self,
        session: SessionId,
        started: Result<bool, RecorderError>,
        now: u64,
        out: &mut Vec<Effect>,
    ) -> (r: Result<(), String>)
        ensures
            match started {
                Ok(archived) => {
                    let recorder = Some(SessionResource { session_id: session, resource: () });
                    &&& r is Ok
                    &&& *final(self) == (Coordinator {
                        audio_archive_active: archived,
                        recorder: slot_after_pending_stop(old(self).state, recorder),
                        ..*old(self)
                    })
                    &&& effects(final(out)@) == effects(old(out)@) + seq![
                        EffectView::WatchRecorder { session },
                    ] + pending_stop_effects(old(self).state, recorder, now)
                },
                Err(e) => {
                    &&& r matches Err(m)
                    &&& m@ == e.user_text()
                    &&& *final(self) == (Coordinator {
                        asr: slot_after(old(self).asr, session),
                        state: SessionState { phase: SessionPhase::Idle, ..old(self).state },
                        ..*old(self)
                    })
                    &&& effects(final(out)@) == effects(old(out)@) + cancel_effects(
                        old(self).asr,
                        session,
                    ) + seq![
                        error_capsule(e.user_text(), old(self).state.phase, 0),
                        EffectView::RestoreIme { session },
                        EffectView::ReleaseMute,
                        EffectView::ScheduleCapsuleIdle { delay_ms: CAPSULE_AUTO_HIDE_DELAY_MS },
                    ]
                },
            },
    {
        match started {
            Ok(archived) => {
                self.audio_archive_active = archived;
                self.recorder = Some(SessionResource::new(session, ()));
                put(out, Effect::WatchRecorder { session });
                assert(effects(out@) =~= effects(old(out)@) + seq![
                    EffectView::WatchRecorder { session },
                ]);
                stop_recorder_if_pending_start_stop(&self.state, &mut self.recorder, now, out);
                Ok(())
            },
            Err(e) => {
                let message = e.user_message();
                cancel_asr_for_session(&mut self.asr, session, out);
                let ghost cancelled = effects(out@);
                put_error(out, owned(message.as_str()), self.state.phase, 0);
                put(out, Effect::RestoreIme { session });
                put(out, Effect::ReleaseMute);
                self.state.phase = SessionPhase::Idle;
                put(out, Effect::ScheduleCapsuleIdle { delay_ms: CAPSULE_AUTO_HIDE_DELAY_MS });
                assert(effects(out@) =~= cancelled + seq![
                    error_capsule(message@, old(self).state.phase, 0),
                    EffectView::RestoreIme { session },
                    EffectView::ReleaseMute,
                    EffectView::ScheduleCapsuleIdle { delay_ms: CAPSULE_AUTO_HIDE_DELAY_MS },
                ]);
                Err(message)
            },
        }
    }

    /// Whether text is to appear while the user speaks, for which the input source is switched.
    pub fn wants_live_insert(engine: Engine, streaming_insert: bool) -> (r: bool)
        ensures
            r == (engine == Engine::Doubao && streaming_insert),
    {
        engine == Engine::Doubao && streaming_insert
    }

    /// The input source was switched, so that text can appear while the user speaks; `Ok` holds the
    /// source before. Where the session is over by then, the source is switched back.
    pub fn live_insert_switched(
        &mut self,
        session: SessionId,
        switched: Result<Option<u64>, ()>,
        out: &mut Vec<Effect>,
    )
        ensures
            ({
                let active = race_of(old(self).state, session) == StartupRaceStatus::ActiveStarting;
                &&& *final(self) == (Coordinator {
                    live_insert: if active {
                        LiveInsert {
                            enabled: true,
                            prev_ime: match switched {
                                Ok(source) => source,
                                Err(_) => old(self).live_insert.prev_ime,
                            },
                            ..old(self).live_insert
                        }
                    } else {
                        old(self).live_insert
                    },
                    ..*old(self)
                })
                &&& effects(final(out)@) == effects(old(out)@) + match switched {
                    Ok(source) if !active => input_source_effects(source),
                    _ => seq![],
                }
            }),
    {
        assert(effects(old(out)@) =~= effects(old(out)@) + Seq::<EffectView>::empty());
        let active = startup_race_status(&self.state, session) == StartupRaceStatus::ActiveStarting;
        match switched {
            Ok(source) => {
                if active {
                    self.live_insert.prev_ime = source;
                    self.live_insert.enabled = true;
                } else {
                    put_input_source(out, source);
                }
            },
            Err(_) => {
                if active {
                    self.live_insert.enabled = true;
                }
            },
        }
    }

    /// The engine is ready, or has failed. Where it is ready, the audio recorded since `base_ms`
    /// goes to it and the session listens; where the session is over by then, all is dropped.
    pub fn session_opened(
        &mut self,
        session: SessionId,
        engine: Engine,
        opened: Result<(), String>,
        base_ms: u64,
        out: &mut Vec<Effect>,
    ) -> (r: OpenStep)
        ensures
            match opened {
                Err(e) => {
                    let active = race_of(old(self).state, session)
                        == StartupRaceStatus::ActiveStarting;
                    &&& final(self).engine.failed("引擎连接失败: "@ + e@)
                    &&& *final(self) == (Coordinator {
                        engine: final(self).engine,
                        state: idle_if_current(old(self).state, session),
                        ..dropped(*old(self), session)
                    })
                    &&& if active {
                        &&& r matches OpenStep::Done(Err(m))
                        &&& m@ == e@
                        &&& effects(final(out)@) == effects(old(out)@) + stop_effects(
                            old(self).recorder,
                            session,
                        ) + cancel_effects(old(self).asr, session) + seq![
                            error_capsule("ASR 连接失败: "@ + e@, SessionPhase::Starting, 0),
                            EffectView::RestoreIme { session },
                            EffectView::ScheduleCapsuleIdle {
                                delay_ms: CAPSULE_AUTO_HIDE_DELAY_MS,
                            },
                        ]
                    } else {
                        &&& r == OpenStep::Done(Ok(()))
                        &&& effects(final(out)@) == effects(old(out)@).push(
                            EffectView::CancelAsr { engine },
                        ) + drop_asks(*old(self), session)
                    }
                },
                Ok(_) => {
                    &&& *final(self) == after_finish_starting(*old(self), session)
                    &&& effects(final(out)@) == effects(old(out)@) + seq![
                        EffectView::SetTimestampBase { engine, ms: base_ms },
                        EffectView::AttachAudio { engine },
                    ] + finish_starting_asks(*old(self), session)
                    &&& r == if race_of(old(self).state, session)
                        == StartupRaceStatus::ActiveStarting && old(self).state.pending_stop {
                        OpenStep::EndNow
                    } else {
                        OpenStep::Done(Ok(()))
                    }
                },
            },
    {
        match opened {
            Err(e) => {
                self.engine_failed(join2("引擎连接失败: ", e.as_str()));
                if startup_race_status(&self.state, session) != StartupRaceStatus::ActiveStarting {
                    put(out, Effect::CancelAsr { engine });
                    let ghost before = effects(out@);
                    discard_startup_resources_for_session(
                        &mut self.recorder,
                        &mut self.asr,
                        session,
                        out,
                    );
                    put(out, Effect::RestoreIme { session });
                    self.idle_if_session(session);
                    assert(effects(out@) =~= before + drop_asks(*old(self), session));
                    return OpenStep::Done(Ok(()));
                }
                discard_startup_resources_for_session(
                    &mut self.recorder,
                    &mut self.asr,
                    session,
                    out,
                );
                let ghost before = effects(out@);
                put_error(out, join2("ASR 连接失败: ", e.as_str()), self.state.phase, 0);
                put(out, Effect::RestoreIme { session });
                self.idle_if_session(session);
                put(out, Effect::ScheduleCapsuleIdle { delay_ms: CAPSULE_AUTO_HIDE_DELAY_MS });
                assert(effects(out@) =~= before + seq![
                    error_capsule("ASR 连接失败: "@ + e@, SessionPhase::Starting, 0),
                    EffectView::RestoreIme { session },
                    EffectView::ScheduleCapsuleIdle { delay_ms: CAPSULE_AUTO_HIDE_DELAY_MS },
                ]);
                OpenStep::Done(Err(e))
            },
            Ok(_) => {
                put(out, Effect::SetTimestampBase { engine, ms: base_ms });
                put(out, Effect::AttachAudio { engine });
                let ghost attached = effects(out@);
                assert(attached =~= effects(old(out)@) + seq![
                    EffectView::SetTimestampBase { engine, ms: base_ms },
                    EffectView::AttachAudio { engine },
                ]);
                if self.finish_starting_session(session, out) {
                    OpenStep::EndNow
                } else {
                    OpenStep::Done(Ok(()))
                }
            },
        }
    }

    /// Finishes the start of a session: it listens, unless it was cancelled meanwhile or is not the
    /// current one. The result tells whether it is to end at once.
    pub fn finish_starting_session(&mut self, session: SessionId, out: &mut Vec<Effect>) -> (r:
        bool)
        ensures
            r == (race_of(old(self).state, session) == StartupRaceStatus::ActiveStarting && old(
                self,
            ).state.pending_stop),
            *final(self) == after_finish_starting(*old(self), session),
            effects(final(out)@) == effects(old(out)@) + finish_starting_asks(*old(self), session),
    {
        assert(effects(old(out)@) =~= effects(old(out)@) + Seq::<EffectView>::empty());
        match finish_starting_session_state(&mut self.state, session) {
            BeginOutcome::StaleContinuation => {
                discard_startup_resources_for_session(
                    &mut self.recorder,
                    &mut self.asr,
                    session,
                    out,
                );
                put(out, Effect::RestoreIme { session });
                assert(effects(out@) =~= effects(old(out)@) + drop_asks(*old(self), session));
                false
            },
            BeginOutcome::CancelRaced => {
                discard_startup_resources_for_session(
                    &mut self.recorder,
                    &mut self.asr,
                    session,
                    out,
                );
                put(out, Effect::RestoreIme { session });
                self.idle_if_session(session);
                assert(effects(out@) =~= effects(old(out)@) + drop_asks(*old(self), session));
                false
            },
            BeginOutcome::Started => false,
            BeginOutcome::PendingStop => true,
        }
    }
}

/// A session that was cancelled while it started does not listen, and nothing that was set up for
/// it stays, even where its recorder and engine came up only afterwards.
pub proof fn law_cancelled_start_never_listens(c: Coordinator, session: SessionId)
    requires
        c.state.session_id == session,
        c.state.cancelled,
    ensures
        after_finish_starting(c, session).state.phase == SessionPhase::Idle,
        after_finish_starting(c, session).recorder == slot_after(c.recorder, session),
        after_finish_starting(c, session).asr == slot_after(c.asr, session),
{
}

/// The late start of an older session leaves the current session alone.
pub proof fn law_stale_start_leaves_newer_session(
    c: Coordinator,
    session: SessionId,
    newer: Engine,
)
    requires
        c.state.session_id != session,
        c.asr == Some(SessionResource { session_id: c.state.session_id, resource: newer }),
    ensures
        after_finish_starting(c, session).state == c.state,
        after_finish_starting(c, session).asr == c.asr,
{
}

/// A start that nothing has come in between leads to a session that listens, with its recorder and
/// engine in place.
pub proof fn law_started_session_listens(c: Coordinator, session: SessionId)
    requires
        c.state.session_id == session,
        c.state.phase == SessionPhase::Starting,
        !c.state.cancelled,
    ensures
        after_finish_starting(c, session).state.phase == SessionPhase::Listening,
        after_finish_starting(c, session).state.session_id == session,
        !after_finish_starting(c, session).state.pending_stop,
        after_finish_starting(c, session).recorder == c.recorder,
        after_finish_starting(c, session).asr == c.asr,
        finish_starting_asks(c, session).len() == 0,
{
}

/// What was set up for a session that does not start is stopped and taken back.
pub proof fn law_dropped_start_is_taken_back(c: Coordinator, session: SessionId)
    requires
        c.recorder is Some && c.recorder->0.session_id == session,
        c.asr is Some && c.asr->0.session_id == session,
    ensures
        dropped(c, session).recorder is None,
        dropped(c, session).asr is None,
        dropped(c, session).state == c.state,
        drop_asks(c, session)[0] == (EffectView::StopRecorder { session }),
        drop_asks(c, session)[1] == EffectView::ReleaseMute,
        drop_asks(c, session)[3] == (EffectView::CancelAsr { engine: c.asr->0.resource }),
        drop_asks(c, session).last() == (EffectView::RestoreIme { session }),
{
}

/// A new session starts with nothing of the one before: it is not cancelled, no stop waits for it,
/// and its time runs from now. The capsule shows at once that it records.
pub proof fn law_new_session_starts_fresh(
    session: SessionId,
    now: u64,
    focus_target: Option<usize>,
    front_app: Option<String>,
    platform: Platform,
    mode: WindowsInsertionMode,
)
    ensures
        ({
            let state = begun(session, now, focus_target, front_app);
            let asks = opening_asks(platform, mode, session);
            &&& state.phase == SessionPhase::Starting
            &&& state.session_id == session
            &&& state.started_at == now
            &&& !state.cancelled && !state.pending_stop
            &&& state.focus_target == focus_target && state.front_app == front_app
            &&& asks.last() matches EffectView::Capsule { state: shown, elapsed_ms, message, .. }
            &&& shown == CapsuleState::Recording && elapsed_ms == 0 && message is None
            &&& asks.contains(EffectView::PrepareIme { session }) <==> platform == Platform::Windows
                && mode == WindowsInsertionMode::Tsf
        }),
{
    let asks = opening_asks(platform, mode, session);
    if platform == Platform::Windows && mode == WindowsInsertionMode::Tsf {
        assert(asks[0] == EffectView::PrepareIme { session });
    } else {
        assert(asks.len() == 1);
    }
}

/// The built-in engine is used under both of its names and needs no credentials; every other
/// provider in the list is reached through the Grok channel with its own address and key, and one
/// that is not in the list is not used at all.
pub proof fn law_engine_is_the_chosen_one(providers: Seq<ProviderRecord>, active: Seq<char>)
    ensures
        active == "builtin-doubao"@ || active == "doubao"@ ==> {
            &&& chosen(providers, active) matches Some((engine, label, credentials))
            &&& engine == Engine::Doubao && credentials is None && label.model is None
        },
        active != "builtin-doubao"@ && active != "doubao"@ ==> match found(providers, active) {
            Some(p) => {
                &&& chosen(providers, active) matches Some((engine, label, credentials))
                &&& engine == Engine::GrokStt
                &&& label.provider == p.name && label.model is None
                &&& credentials matches Some((url, key))
                &&& url == p.url
                &&& p.api_key is Some ==> key == p.api_key->0
                &&& p.api_key is None ==> key.len() == 0
            },
            None => chosen(providers, active) is None,
        },
{
}

/// The user sees at once that a session has begun to record, before anything else comes of it; the
/// input method is made ready before that, where text is to be inserted through it.
pub proof fn law_beginning_is_shown(
    platform: Platform,
    mode: WindowsInsertionMode,
    session: SessionId,
)
    ensures
        ({
            let asks = opening_asks(platform, mode, session);
            let method = platform == Platform::Windows && mode == WindowsInsertionMode::Tsf;
            &&& asks.last() == EffectView::Capsule {
                state: CapsuleState::Recording,
                phase: SessionPhase::Starting,
                elapsed_ms: 0,
                message: None,
                inserted_chars: None,
            }
            &&& method ==> asks.len() == 2 && asks[0] == EffectView::PrepareIme { session }
            &&& !method ==> asks.len() == 1
        }),
{
}

} // verus!
