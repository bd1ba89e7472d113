//! The coordinator's own state.
use vstd::prelude::*;

use crate::coordinator::resources::{effects, put, Effect, EffectView, Engine, SessionResource};
use crate::coordinator_state::{idle_if_current, SessionId, SessionPhase, SessionState};
use crate::text::{blank, is_blank, owned, to_chars};
use crate::types::{opt_copy, opt_text, CapsuleState};

verus! {

/// How long a finished capsule stays, in milliseconds.
pub const CAPSULE_AUTO_HIDE_DELAY_MS: u64 = 2000;

/// How long a cancelled capsule stays, in milliseconds.
pub const CAPSULE_CANCEL_HIDE_DELAY_MS: u64 = 0;

/// How long no new session starts after one has ended, in nanoseconds.
pub const POST_SESSION_COOLDOWN: u64 = 600_000_000;

/// How long an engine may take for its result, in seconds.
pub const COORDINATOR_GLOBAL_TIMEOUT_SECS: u64 = 30;

/// How long the recorder runs on after the key is let go, in milliseconds.
pub const TAIL_MS: u64 = 500;

/// Whether the engines were well, the last time one was used.
#[derive(Debug)]
pub struct EngineStatus {
    pub ok: bool,
    pub error: Option<String>,
}

impl EngineStatus {
    /// The engine failed with that message.
    pub open spec fn failed(self, message: Seq<char>) -> bool {
        !self.ok && opt_text(self.error) == Some(message)
    }
}

/// The engine and the model that were used for a recognition.
#[derive(Debug)]
pub struct AsrCallLabel {
    pub provider: String,
    pub model: Option<String>,
}

/// The contents of a label.
pub ghost struct LabelRecord {
    pub provider: Seq<char>,
    pub model: Option<Seq<char>>,
}

impl View for AsrCallLabel {
    type V = LabelRecord;

    open spec fn view(&self) -> LabelRecord {
        LabelRecord { provider: self.provider@, model: opt_text(self.model) }
    }
}

/// The contents of an optional label.
pub open spec fn opt_label(label: Option<AsrCallLabel>) -> Option<LabelRecord> {
    match label {
        Some(l) => Some(l@),
        None => None,
    }
}

/// A label: a blank model is none.
pub open spec fn label_of(provider: Seq<char>, model: Option<Seq<char>>) -> LabelRecord {
    LabelRecord {
        provider,
        model: match model {
            Some(m) if !blank(m) => Some(m),
            _ => None,
        },
    }
}

impl AsrCallLabel {
    /// A label. A blank model is none.
    pub fn new(provider: &str, model: Option<String>) -> (r: AsrCallLabel)
        ensures
            r@ == label_of(provider@, opt_text(model)),
    {
        let model = match model {
            Some(m) => {
                if is_blank(m.as_str()) {
                    None
                } else {
                    Some(m)
                }
            },
            None => None,
        };
        AsrCallLabel { provider: owned(provider), model }
    }

    /// A copy of the label.
    pub fn copy(&self) -> (r: AsrCallLabel)
        ensures
            r@ == self@,
    {
        AsrCallLabel { provider: owned(self.provider.as_str()), model: opt_copy(&self.model) }
    }
}

/// Text that appears at the cursor while the user still speaks.
#[derive(Debug)]
pub struct LiveInsert {
    pub enabled: bool,
    /// How many characters of it stand at the cursor.
    pub prev_len: usize,
    /// The input source to return to, as the caller numbers them.
    pub prev_ime: Option<u64>,
}

/// What is known of the dictation key.
#[derive(Debug)]
pub struct HotkeyEdges {
    pub trigger_held: bool,
    /// The number of the latest press.
    pub press_generation: u64,
    /// The press that began the session, or zero.
    pub press_began_session: u64,
    /// Presses to which another key was added, and which nobody has asked for yet.
    pub combo_pending_presses: Vec<u64>,
    pub last_dispatch_at: Option<u64>,
    pub press_at: Option<u64>,
    pub cooldown_until: Option<u64>,
}

/// What the capsule shows.
#[derive(Debug)]
pub struct CapsuleTrack {
    /// Goes up with each frame.
    pub epoch: u64,
    pub last_state: Option<CapsuleState>,
    /// The microphone has not given sound yet.
    pub warming: bool,
}

/// The state of the coordinator.
pub struct Coordinator {
    pub state: SessionState,
    pub recorder: Option<SessionResource<()>>,
    pub asr: Option<SessionResource<Engine>>,
    pub asr_label: Option<SessionResource<AsrCallLabel>>,
    pub live_insert: LiveInsert,
    pub engine: EngineStatus,
    /// Whether the current recording is being written to disk.
    pub audio_archive_active: bool,
    pub hotkey: HotkeyEdges,
    pub translation_modifier_seen: bool,
    pub capsule: CapsuleTrack,
    pub shortcut_recording_active: bool,
    pub shutdown: bool,
}

/// What replacing the text at the cursor asks for.
pub open spec fn delete_effects(count: usize) -> Seq<EffectView> {
    if count > 0 {
        seq![EffectView::DeleteChars { count }]
    } else {
        seq![]
    }
}

/// What returning to an input source asks for.
pub open spec fn input_source_effects(source: Option<u64>) -> Seq<EffectView> {
    match source {
        Some(n) => seq![EffectView::RestoreInputSource { source: n }],
        None => seq![],
    }
}

/// Asks to delete characters, where there are any.
pub(crate) fn put_delete(out: &mut Vec<Effect>, count: usize)
    ensures
        effects(final(out)@) == effects(old(out)@) + delete_effects(count),
{
    if count > 0 {
        put(out, Effect::DeleteChars { count });
    }
    assert(effects(out@) =~= effects(old(out)@) + delete_effects(count));
}

/// Asks to return to an input source, where there is one.
pub(crate) fn put_input_source(out: &mut Vec<Effect>, source: Option<u64>)
    ensures
        effects(final(out)@) == effects(old(out)@) + input_source_effects(source),
{
    match source {
        Some(source) => put(out, Effect::RestoreInputSource { source }),
        None => {},
    }
    assert(effects(out@) =~= effects(old(out)@) + input_source_effects(source));
}

/// When a cooldown that begins now ends.
pub open spec fn cooldown_end(now: u64) -> u64 {
    (now + POST_SESSION_COOLDOWN) as u64
}

/// What text that is recognised while the user still speaks asks for.
pub open spec fn partial_asks(live: LiveInsert, text: Seq<char>) -> Seq<EffectView> {
    (if live.enabled {
        delete_effects(live.prev_len).push(EffectView::TypeText { text })
    } else {
        seq![]
    }).push(EffectView::PartialText { text })
}

/// Times at which the end of a cooldown can still be told.
pub open spec fn clock_has_room(now: u64) -> bool {
    now <= u64::MAX - POST_SESSION_COOLDOWN
}

impl Coordinator {
    /// A coordinator before its first session.
    pub fn new(now: u64) -> (r: Coordinator)
        ensures
            r.state == (SessionState {
                phase: SessionPhase::Idle,
                started_at: now,
                pending_stop: false,
                cancelled: false,
                focus_target: None,
                session_id: SessionId { value: 0 },
                front_app: None,
            }),
            r.recorder is None,
            r.asr is None,
            r.asr_label is None,
            r.live_insert == (LiveInsert { enabled: false, prev_len: 0, prev_ime: None }),
            r.engine == (EngineStatus { ok: true, error: None }),
            !r.audio_archive_active,
            r.hotkey.combo_pending_presses@ == Seq::<u64>::empty(),
            r.hotkey == (HotkeyEdges {
                trigger_held: false,
                press_generation: 0,
                press_began_session: 0,
                combo_pending_presses: r.hotkey.combo_pending_presses,
                last_dispatch_at: None,
                press_at: None,
                cooldown_until: None,
            }),
            !r.translation_modifier_seen,
            r.capsule == (CapsuleTrack { epoch: 0, last_state: None, warming: false }),
            !r.shortcut_recording_active,
            !r.shutdown,
    {
        Coordinator {
            state: SessionState::new(now),
            recorder: None,
            asr: None,
            asr_label: None,
            live_insert: LiveInsert { enabled: false, prev_len: 0, prev_ime: None },
            engine: EngineStatus { ok: true, error: None },
            audio_archive_active: false,
            hotkey: HotkeyEdges {
                trigger_held: false,
                press_generation: 0,
                press_began_session: 0,
                combo_pending_presses: Vec::new(),
                last_dispatch_at: None,
                press_at: None,
                cooldown_until: None,
            },
            translation_modifier_seen: false,
            capsule: CapsuleTrack { epoch: 0, last_state: None, warming: false },
            shortcut_recording_active: false,
            shutdown: false,
        }
    }

    /// Whether the engines were well, the last time one was used.
    pub fn engine_status(&self) -> (r: EngineStatus)
        ensures
            r.ok == self.engine.ok,
            opt_text(r.error) == opt_text(self.engine.error),
    {
        EngineStatus { ok: self.engine.ok, error: opt_copy(&self.engine.error) }
    }

    /// Has all loops around the hotkeys end.
    pub fn request_shutdown(&mut self)
        ensures
            *final(self) == (Coordinator { shutdown: true, ..*old(self) }),
    {
        self.shutdown = true;
    }

    /// The phase of the current session.
    pub fn dictation_phase_for_cli(&self) -> (r: SessionPhase)
        ensures
            r == self.state.phase,
    {
        self.state.phase
    }

    /// Whether a shortcut is being recorded in the settings. While it is, no key counts as held.
    pub fn set_shortcut_recording_active(&mut self, active: bool)
        ensures
            *final(self) == (Coordinator {
                shortcut_recording_active: active,
                hotkey: HotkeyEdges {
                    trigger_held: old(self).hotkey.trigger_held && !active,
                    ..old(self).hotkey
                },
                ..*old(self)
            }),
    {
        self.shortcut_recording_active = active;
        if active {
            self.hotkey.trigger_held = false;
        }
    }

    /// The engine failed.
    pub(crate) fn engine_failed(&mut self, message: String)
        ensures
            *final(self) == (Coordinator {
                engine: EngineStatus { ok: false, error: Some(message) },
                ..*old(self)
            }),
    {
        self.engine = EngineStatus { ok: false, error: Some(message) };
    }

    /// The session is idle, where it is that one.
    pub(crate) fn idle_if_session(&mut self, session: SessionId)
        ensures
            *final(self) == (Coordinator {
                state: idle_if_current(old(self).state, session),
                ..*old(self)
            }),
    {
        if self.state.session_id == session {
            self.state.phase = SessionPhase::Idle;
        }
    }

    /// No new session starts for a while.
    pub(crate) fn cool_down(&mut self, now: u64)
        requires
            clock_has_room(now),
        ensures
            *final(self) == (Coordinator {
                hotkey: HotkeyEdges {
                    cooldown_until: Some(cooldown_end(now)),
                    ..old(self).hotkey
                },
                ..*old(self)
            }),
    {
        self.hotkey.cooldown_until = Some(now + POST_SESSION_COOLDOWN);
    }

    /// Text was recognised while the user still speaks. Where such text is inserted at once, it
    /// takes the place of what stood there before.
    pub fn on_partial(&mut self, text: &str, out: &mut Vec<Effect>)
        ensures
            *final(self) == (Coordinator {
                live_insert: LiveInsert {
                    prev_len: final(self).live_insert.prev_len,
                    ..old(self).live_insert
                },
                ..*old(self)
            }),
            final(self).live_insert.prev_len == if old(self).live_insert.enabled {
                text@.len() as int
            } else {
                old(self).live_insert.prev_len as int
            },
            effects(final(out)@) == effects(old(out)@) + partial_asks(
                old(self).live_insert,
                text@,
            ),
    {
        if self.live_insert.enabled {
            let prev: usize = self.live_insert.prev_len;
            self.live_insert.prev_len = to_chars(text).len();
            put_delete(out, prev);
            put(out, Effect::TypeText { text: owned(text) });
        }
        put(out, Effect::PartialText { text: owned(text) });
        assert(effects(out@) =~= effects(old(out)@) + (if old(self).live_insert.enabled {
            delete_effects(old(self).live_insert.prev_len).push(
                EffectView::TypeText { text: text@ },
            )
        } else {
            seq![]
        }).push(EffectView::PartialText { text: text@ }));
    }

    /// The engine and the label of a session that is being set up.
    pub fn store_asr_for_session(&mut self, session: SessionId, engine: Engine, label: AsrCallLabel)
        ensures
            *final(self) == (Coordinator {
                asr: Some(SessionResource { session_id: session, resource: engine }),
                asr_label: Some(SessionResource { session_id: session, resource: label }),
                ..*old(self)
            }),
    {
        self.asr = Some(SessionResource::new(session, engine));
        self.asr_label = Some(SessionResource::new(session, label));
    }
}

/// No new session starts for six tenths of a second after one has ended; the recorder runs on for
/// half a second after the key is let go.
pub proof fn law_cooldown_lasts(now: u64)
    requires
        clock_has_room(now),
    ensures
        cooldown_end(now) == now + 600_000_000,
        clock_has_room(now) <==> now + 600_000_000 <= u64::MAX,
        TAIL_MS == 500,
{
}

/// Text that is recognised while the user still speaks is always told. Where it is inserted at
/// once, all that stood there before is deleted first, and then the whole text is typed.
pub proof fn law_partial_text_takes_its_place(live: LiveInsert, text: Seq<char>)
    ensures
        ({
            let asks = partial_asks(live, text);
            &&& asks.last() == EffectView::PartialText { text }
            &&& !live.enabled ==> asks.len() == 1
            &&& live.enabled && live.prev_len == 0 ==> asks.len() == 2 && asks[0]
                == EffectView::TypeText { text }
            &&& live.enabled && live.prev_len > 0 ==> {
                &&& asks.len() == 3
                &&& asks[0] == EffectView::DeleteChars { count: live.prev_len }
                &&& asks[1] == EffectView::TypeText { text }
            }
        }),
{
}

/// Returning to an input source is asked for where there is one, and then for that one.
pub proof fn law_input_source_is_restored(source: u64)
    ensures
        input_source_effects(Some(source)).len() == 1,
        input_source_effects(Some(source))[0] == (EffectView::RestoreInputSource { source }),
        input_source_effects(None).len() == 0,
{
}

/// A label has the model that was used, unless it is blank.
pub proof fn law_label_names_engine_and_model(provider: Seq<char>, model: Option<Seq<char>>)
    ensures
        label_of(provider, model).provider == provider,
        model is Some && !blank(model->0) ==> label_of(provider, model).model == model,
        model is None || blank(model->0) ==> label_of(provider, model).model is None,
{
}

/// An engine has failed only where it is not well and the message is the one that is told.
pub proof fn law_failed_engine_is_not_well(status: EngineStatus, message: Seq<char>)
    ensures
        status.ok ==> !status.failed(message),
        status.failed(message) ==> status.error is Some && status.error->0@ == message,
        !status.ok && status.error is Some ==> status.failed(status.error->0@),
{
}

} // verus!
