//! Resources that belong to a session, and what is asked of the world around the coordinator.
use vstd::prelude::*;

use crate::coordinator_state::{elapsed_ms, millis_between, SessionId, SessionPhase, SessionState};
use crate::text::{blank, is_blank, trim, trimmed};
use crate::types::{opt_text, CapsuleState, DictationSession, SessionRecord};

verus! {

/// A speech engine.
#[derive(Clone, Copy, PartialEq, Eq, Structural, Debug)]
pub enum Engine {
    /// The Doubao IME channel.
    Doubao,
    /// The Grok channel, which also serves providers that the user has added.
    GrokStt,
}

/// Something to be done outside, in the order in which the effects are given.
#[derive(Debug)]
pub enum Effect {
    /// Show this in the capsule.
    Capsule {
        state: CapsuleState,
        /// The phase that the session was in.
        phase: SessionPhase,
        elapsed_ms: u64,
        message: Option<String>,
        inserted_chars: Option<u32>,
    },
    /// Hide the capsule after a while, unless it shows something else by then.
    ScheduleCapsuleIdle { delay_ms: u64 },
    StopRecorder { session: SessionId },
    ReleaseMute,
    /// Give freed memory back to the system.
    RelieveMemory,
    CancelAsr { engine: Engine },
    CloseAsr { engine: Engine },
    /// Take note of the input method, to restore it afterwards.
    PrepareIme { session: SessionId },
    RestoreIme { session: SessionId },
    /// Switch back to the input source that was kept under this number.
    RestoreInputSource { source: u64 },
    /// Delete so many characters in front of the cursor.
    DeleteChars { count: usize },
    /// Type a text at the cursor.
    TypeText { text: String },
    /// Tell what has been recognised so far.
    PartialText { text: String },
    SaveGrokCredentials { url: String, api_key: String },
    /// Report errors of the running recorder.
    WatchRecorder { session: SessionId },
    /// Count the engine's time from when the recording began.
    SetTimestampBase { engine: Engine, ms: u64 },
    /// Hand the audio recorded so far, and all that follows, to the engine.
    AttachAudio { engine: Engine },
    DeleteRecording { session: SessionId },
    AppendHistory { entry: DictationSession },
    HistoryChanged,
    BumpActivity,
}

/// The contents of an effect.
pub ghost enum EffectView {
    Capsule {
        state: CapsuleState,
        phase: SessionPhase,
        elapsed_ms: u64,
        message: Option<Seq<char>>,
        inserted_chars: Option<u32>,
    },
    ScheduleCapsuleIdle { delay_ms: u64 },
    StopRecorder { session: SessionId },
    ReleaseMute,
    RelieveMemory,
    CancelAsr { engine: Engine },
    CloseAsr { engine: Engine },
    PrepareIme { session: SessionId },
    RestoreIme { session: SessionId },
    RestoreInputSource { source: u64 },
    DeleteChars { count: usize },
    TypeText { text: Seq<char> },
    PartialText { text: Seq<char> },
    SaveGrokCredentials { url: Seq<char>, api_key: Seq<char> },
    WatchRecorder { session: SessionId },
    SetTimestampBase { engine: Engine, ms: u64 },
    AttachAudio { engine: Engine },
    DeleteRecording { session: SessionId },
    AppendHistory { entry: SessionRecord },
    HistoryChanged,
    BumpActivity,
}

impl View for Effect {
    type V = EffectView;

    open spec fn view(&self) -> EffectView {
        match *self {
            Effect::Capsule {
                state,
                phase,
                elapsed_ms,
                message,
                inserted_chars,
            } => EffectView::Capsule {
                state,
                phase,
                elapsed_ms,
                message: opt_text(message),
                inserted_chars,
            },
            Effect::ScheduleCapsuleIdle { delay_ms } => EffectView::ScheduleCapsuleIdle { delay_ms },
            Effect::StopRecorder { session } => EffectView::StopRecorder { session },
            Effect::ReleaseMute => EffectView::ReleaseMute,
            Effect::RelieveMemory => EffectView::RelieveMemory,
            Effect::CancelAsr { engine } => EffectView::CancelAsr { engine },
            Effect::CloseAsr { engine } => EffectView::CloseAsr { engine },
            Effect::PrepareIme { session } => EffectView::PrepareIme { session },
            Effect::RestoreIme { session } => EffectView::RestoreIme { session },
            Effect::RestoreInputSource { source } => EffectView::RestoreInputSource { source },
            Effect::DeleteChars { count } => EffectView::DeleteChars { count },
            Effect::TypeText { text } => EffectView::TypeText { text: text@ },
            Effect::PartialText { text } => EffectView::PartialText { text: text@ },
            Effect::SaveGrokCredentials { url, api_key } => EffectView::SaveGrokCredentials {
                url: url@,
                api_key: api_key@,
            },
            Effect::WatchRecorder { session } => EffectView::WatchRecorder { session },
            Effect::SetTimestampBase { engine, ms } => EffectView::SetTimestampBase { engine, ms },
            Effect::AttachAudio { engine } => EffectView::AttachAudio { engine },
            Effect::DeleteRecording { session } => EffectView::DeleteRecording { session },
            Effect::AppendHistory { entry } => EffectView::AppendHistory { entry: entry@ },
            Effect::HistoryChanged => EffectView::HistoryChanged,
            Effect::BumpActivity => EffectView::BumpActivity,
        }
    }
}

/// The contents of effects.
pub open spec fn effects(v: Seq<Effect>) -> Seq<EffectView> {
    v.map_values(|e: Effect| e@)
}

/// Appends an effect.
pub(crate) fn put(out: &mut Vec<Effect>, e: Effect)
    ensures
        effects(final(out)@) == effects(old(out)@).push(e@),
{
    out.push(e);
    assert(effects(out@) =~= effects(old(out)@).push(e@));
}

/// A capsule effect without a message.
pub open spec fn plain_capsule(
    state: CapsuleState,
    phase: SessionPhase,
    elapsed_ms: u64,
) -> EffectView {
    EffectView::Capsule { state, phase, elapsed_ms, message: None, inserted_chars: None }
}

/// A capsule effect that shows an error.
pub open spec fn error_capsule(
    message: Seq<char>,
    phase: SessionPhase,
    elapsed_ms: u64,
) -> EffectView {
    EffectView::Capsule {
        state: CapsuleState::Error,
        phase,
        elapsed_ms,
        message: Some(message),
        inserted_chars: None,
    }
}

/// Appends a capsule effect without a message.
pub(crate) fn put_capsule(
    out: &mut Vec<Effect>,
    state: CapsuleState,
    phase: SessionPhase,
    elapsed_ms: u64,
)
    ensures
        effects(final(out)@) == effects(old(out)@).push(plain_capsule(state, phase, elapsed_ms)),
{
    put(out, Effect::Capsule { state, phase, elapsed_ms, message: None, inserted_chars: None });
}

/// Appends a capsule effect that shows an error.
pub(crate) fn put_error(
    out: &mut Vec<Effect>,
    message: String,
    phase: SessionPhase,
    elapsed_ms: u64,
)
    ensures
        effects(final(out)@) == effects(old(out)@).push(
            error_capsule(message@, phase, elapsed_ms),
        ),
{
    put(
        out,
        Effect::Capsule {
            state: CapsuleState::Error,
            phase,
            elapsed_ms,
            message: Some(message),
            inserted_chars: None,
        },
    );
}

/// Something that belongs to a session.
pub struct SessionResource<T> {
    pub session_id: SessionId,
    pub resource: T,
}

impl<T> SessionResource<T> {
    /// The resource of a session.
    pub fn new(session_id: SessionId, resource: T) -> (r: SessionResource<T>)
        ensures
            r == (SessionResource { session_id, resource }),
    {
        SessionResource { session_id, resource }
    }
}

/// What a session finds in a slot: its own resource, nothing else's.
pub open spec fn owned_by<T>(slot: Option<SessionResource<T>>, id: SessionId) -> Option<T> {
    match slot {
        Some(r) if r.session_id == id => Some(r.resource),
        _ => None,
    }
}

/// A slot after a session has taken its resource.
pub open spec fn slot_after<T>(
    slot: Option<SessionResource<T>>,
    id: SessionId,
) -> Option<SessionResource<T>> {
    match slot {
        Some(r) if r.session_id == id => None,
        other => other,
    }
}

/// Takes the resource of a session out of a slot. What belongs to another session stays.
pub fn take_session_resource<T>(
    slot: &mut Option<SessionResource<T>>,
    session_id: SessionId,
) -> (r: Option<T>)
    ensures
        r == owned_by(*old(slot), session_id),
        *final(slot) == slot_after(*old(slot), session_id),
{
    let mine = match slot {
        Some(r) => r.session_id == session_id,
        None => false,
    };
    if mine {
        match slot.take() {
            Some(r) => Some(r.resource),
            None => None,
        }
    } else {
        None
    }
}

/// What stopping the recorder of a session asks for, where the session has one.
pub open spec fn stop_effects(
    slot: Option<SessionResource<()>>,
    id: SessionId,
) -> Seq<EffectView> {
    if owned_by(slot, id) is Some {
        seq![
            EffectView::StopRecorder { session: id },
            EffectView::ReleaseMute,
            EffectView::RelieveMemory,
        ]
    } else {
        seq![]
    }
}

/// What cancelling the engine of a session asks for, where the session has one.
pub open spec fn cancel_effects(
    slot: Option<SessionResource<Engine>>,
    id: SessionId,
) -> Seq<EffectView> {
    match owned_by(slot, id) {
        Some(engine) => seq![EffectView::CancelAsr { engine }],
        None => seq![],
    }
}

/// Stops the recorder of a session.
pub fn stop_recorder_for_session(
    slot: &mut Option<SessionResource<()>>,
    id: SessionId,
    out: &mut Vec<Effect>,
)
    ensures
        *final(slot) == slot_after(*old(slot), id),
        effects(final(out)@) == effects(old(out)@) + stop_effects(*old(slot), id),
{
    if take_session_resource(slot, id).is_some() {
        put(out, Effect::StopRecorder { session: id });
        put(out, Effect::ReleaseMute);
        put(out, Effect::RelieveMemory);
    }
    assert(effects(out@) =~= effects(old(out)@) + stop_effects(*old(slot), id));
}

/// Cancels the engine of a session.
pub fn cancel_asr_for_session(
    slot: &mut Option<SessionResource<Engine>>,
    id: SessionId,
    out: &mut Vec<Effect>,
)
    ensures
        *final(slot) == slot_after(*old(slot), id),
        effects(final(out)@) == effects(old(out)@) + cancel_effects(*old(slot), id),
{
    match take_session_resource(slot, id) {
        Some(engine) => put(out, Effect::CancelAsr { engine }),
        None => {},
    }
    assert(effects(out@) =~= effects(old(out)@) + cancel_effects(*old(slot), id));
}

/// Drops what was set up for a session that does not start.
pub fn discard_startup_resources_for_session(
    recorder: &mut Option<SessionResource<()>>,
    asr: &mut Option<SessionResource<Engine>>,
    id: SessionId,
    out: &mut Vec<Effect>,
)
    ensures
        *final(recorder) == slot_after(*old(recorder), id),
        *final(asr) == slot_after(*old(asr), id),
        effects(final(out)@) == effects(old(out)@) + stop_effects(*old(recorder), id)
            + cancel_effects(*old(asr), id),
{
    stop_recorder_for_session(recorder, id, out);
    cancel_asr_for_session(asr, id, out);
}

/// What a stop that waits for the start of the session asks for.
pub open spec fn pending_stop_effects(
    state: SessionState,
    slot: Option<SessionResource<()>>,
    now: u64,
) -> Seq<EffectView> {
    if state.phase == SessionPhase::Starting && state.pending_stop && owned_by(
        slot,
        state.session_id,
    ) is Some {
        seq![
            EffectView::StopRecorder { session: state.session_id },
            EffectView::ReleaseMute,
            plain_capsule(
                CapsuleState::Transcribing,
                SessionPhase::Starting,
                elapsed_ms(state.started_at, now),
            ),
        ]
    } else {
        seq![]
    }
}

/// The recorder slot after a stop that waits for the start of the session.
pub open spec fn slot_after_pending_stop(
    state: SessionState,
    slot: Option<SessionResource<()>>,
) -> Option<SessionResource<()>> {
    if state.phase == SessionPhase::Starting && state.pending_stop {
        slot_after(slot, state.session_id)
    } else {
        slot
    }
}

/// Stops the recorder of a session that is still starting and is to stop.
pub fn stop_recorder_if_pending_start_stop(
    state: &SessionState,
    slot: &mut Option<SessionResource<()>>,
    now: u64,
    out: &mut Vec<Effect>,
)
    ensures
        *final(slot) == slot_after_pending_stop(*state, *old(slot)),
        effects(final(out)@) == effects(old(out)@) + pending_stop_effects(*state, *old(slot), now),
{
    if state.phase == SessionPhase::Starting && state.pending_stop {
        if take_session_resource(slot, state.session_id).is_some() {
            put(out, Effect::StopRecorder { session: state.session_id });
            put(out, Effect::ReleaseMute);
            put_capsule(
                out,
                CapsuleState::Transcribing,
                SessionPhase::Starting,
                millis_between(state.started_at, now),
            );
        }
    }
    assert(effects(out@) =~= effects(old(out)@) + pending_stop_effects(*state, *old(slot), now));
}

/// The number of holders after a recording begins.
pub open spec fn after_acquire(holders: u32, mute_during_recording: bool, activated: bool) -> u32 {
    if !mute_during_recording || (holders == 0 && !activated) || holders == u32::MAX {
        holders
    } else {
        (holders + 1) as u32
    }
}

/// The number of holders after a recording ends.
pub open spec fn after_release(holders: u32) -> u32 {
    if holders == 0 {
        0
    } else {
        (holders - 1) as u32
    }
}

/// Whether the end of a recording restores the output.
pub open spec fn restores(holders: u32) -> bool {
    holders == 1
}

/// How many recordings hold the system's output muted.
pub struct SharedRecordingMuteState {
    pub holders: u32,
}

impl SharedRecordingMuteState {
    pub fn new() -> (s: SharedRecordingMuteState)
        ensures
            s.holders == 0,
    {
        SharedRecordingMuteState { holders: 0 }
    }

    /// Whether a recording that begins must mute the output itself.
    pub fn needs_activation(&self, mute_during_recording: bool) -> (r: bool)
        ensures
            r == (mute_during_recording && self.holders == 0),
    {
        mute_during_recording && self.holders == 0
    }

    /// A recording begins. `activated` tells whether muting worked, where it was needed; where it
    /// did not, the recording holds nothing.
    pub fn acquire(&mut self, mute_during_recording: bool, activated: bool)
        ensures
            final(self).holders == after_acquire(
                old(self).holders,
                mute_during_recording,
                activated,
            ),
    {
        if !mute_during_recording {
            return;
        }
        if self.holders == 0 && !activated {
            return;
        }
        self.holders = self.holders.saturating_add(1);
    }

    /// A recording ends. The result tells whether the output must be restored.
    pub fn release(&mut self) -> (restore: bool)
        ensures
            restore == restores(old(self).holders),
            final(self).holders == after_release(old(self).holders),
    {
        if self.holders == 0 {
            return false;
        }
        self.holders -= 1;
        self.holders == 0
    }
}

/// A recording that ends undoes what its begin did to the count: the output is restored exactly
/// where the begin had muted it.
pub proof fn law_mute_is_balanced(holders: u32, activated: bool)
    requires
        holders < u32::MAX,
        holders > 0 || activated,
    ensures
        after_release(after_acquire(holders, true, activated)) == holders,
        restores(after_acquire(holders, true, activated)) <==> holders == 0,
{
}

/// The microphone that the user has chosen, where there is one.
pub fn selected_microphone_device_name(name: &str) -> (r: Option<String>)
    ensures
        r is Some <==> !blank(name@),
        r matches Some(s) ==> s@ == trimmed(name@),
{
    if is_blank(name) {
        None
    } else {
        Some(trim(name))
    }
}

/// What belongs to another session is never taken.
pub proof fn law_other_sessions_resource_stays<T>(slot: Option<SessionResource<T>>, id: SessionId)
    requires
        slot is Some,
        slot->0.session_id != id,
    ensures
        owned_by(slot, id) is None,
        slot_after(slot, id) == slot,
{
}

/// A session takes its own resource, and then it is gone.
pub proof fn law_own_resource_is_taken<T>(id: SessionId, resource: T)
    ensures
        owned_by(Some(SessionResource { session_id: id, resource }), id) == Some(resource),
        slot_after(Some(SessionResource { session_id: id, resource }), id) is None,
        owned_by(None::<SessionResource<T>>, id) is None,
{
}

/// The recorder and the engine of a session are stopped just where it has one.
pub proof fn law_only_what_runs_is_stopped(
    recorder: Option<SessionResource<()>>,
    asr: Option<SessionResource<Engine>>,
    id: SessionId,
)
    ensures
        recorder is Some && recorder->0.session_id == id ==> {
            &&& stop_effects(recorder, id).len() == 3
            &&& stop_effects(recorder, id)[0] == EffectView::StopRecorder { session: id }
            &&& stop_effects(recorder, id)[1] == EffectView::ReleaseMute
            &&& slot_after(recorder, id) is None
        },
        !(recorder is Some && recorder->0.session_id == id) ==> stop_effects(recorder, id).len() == 0
            && slot_after(recorder, id) == recorder,
        asr is Some && asr->0.session_id == id ==> cancel_effects(asr, id) == seq![
            EffectView::CancelAsr { engine: asr->0.resource },
        ],
        !(asr is Some && asr->0.session_id == id) ==> cancel_effects(asr, id).len() == 0,
{
}

/// A stop that comes while a session starts stops its recorder at once, and only then; the capsule
/// shows that the recording is over.
pub proof fn law_early_stop_stops_the_recorder(
    state: SessionState,
    recorder: Option<SessionResource<()>>,
    now: u64,
)
    ensures
        ({
            let own = recorder is Some && recorder->0.session_id == state.session_id;
            let stops = own && state.phase == SessionPhase::Starting && state.pending_stop;
            let asks = pending_stop_effects(state, recorder, now);
            &&& stops ==> {
                &&& slot_after_pending_stop(state, recorder) is None
                &&& asks.len() == 3
                &&& asks[0] == EffectView::StopRecorder { session: state.session_id }
                &&& asks[2] matches EffectView::Capsule { state: shown, .. }
                &&& shown == CapsuleState::Transcribing
            }
            &&& !stops ==> slot_after_pending_stop(state, recorder) == recorder && asks.len() == 0
        }),
{
}

/// The output is muted only where the user wants it, once for all recordings that overlap: the
/// first one mutes it, and the last one to end gives it back. A recording that could not mute it
/// holds nothing.
pub proof fn law_output_is_muted_once(holders: u32, activated: bool)
    ensures
        after_acquire(holders, false, activated) == holders,
        after_acquire(0, true, false) == 0,
        after_acquire(0, true, true) == 1,
        0 < holders < u32::MAX ==> after_acquire(holders, true, activated) == holders + 1,
        after_release(0) == 0,
        holders > 0 ==> after_release(holders) == holders - 1,
        restores(holders) <==> holders > 0 && after_release(holders) == 0,
{
}

} // verus!
