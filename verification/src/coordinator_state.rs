//! The state of a dictation session and its transitions.
//!
//! A session goes `Idle`, `Starting`, `Listening`, `Processing`, `Inserting` and back to `Idle`.
//! Times are nanoseconds of a clock that never runs backwards.
use vstd::prelude::*;

use crate::ids::{hyphenated, hyphenated_id, random_id};

verus! {

/// The identifier of a session.
#[derive(Clone, Copy, PartialEq, Eq, Structural, Debug)]
pub struct SessionId {
    pub value: u128,
}

impl SessionId {
    /// The identifier with that number.
    pub fn from_u128(value: u128) -> (id: SessionId)
        ensures
            id == (SessionId { value }),
    {
        SessionId { value }
    }

    /// How the identifier is written: as hyphenated hexadecimal digits.
    pub open spec fn text(self) -> Seq<char> {
        hyphenated_id(self.value)
    }

    /// Writes the identifier.
    pub fn to_text(&self) -> (s: String)
        ensures
            s@ == self.text(),
    {
        hyphenated(self.value)
    }
}

/// Draws the identifier of a new session, which is never the initial one.
pub fn new_session_id() -> (id: SessionId)
    ensures
        id.value != 0,
{
    SessionId { value: random_id() }
}

/// The identifier before the first session.
pub fn initial_session_id() -> (id: SessionId)
    ensures
        id == (SessionId { value: 0 }),
{
    SessionId { value: 0 }
}

/// Where a session stands.
#[derive(Clone, Copy, PartialEq, Eq, Structural, Debug)]
pub enum SessionPhase {
    Idle,
    /// The recorder and the engine are being set up.
    Starting,
    Listening,
    /// The recording has ended; the engine is at work.
    Processing,
    /// Text is being inserted, which cannot be undone: cancelling is too late.
    Inserting,
}

/// The state of the current session.
#[derive(Debug)]
pub struct SessionState {
    pub phase: SessionPhase,
    pub started_at: u64,
    /// A stop came while starting: the session ends as soon as it has started.
    pub pending_stop: bool,
    pub cancelled: bool,
    /// The window that had the focus.
    pub focus_target: Option<usize>,
    pub session_id: SessionId,
    /// The application that was in front.
    pub front_app: Option<String>,
}

/// Whole milliseconds from one time to another.
pub open spec fn elapsed_ms(from: u64, to: u64) -> u64 {
    if to < from {
        0
    } else {
        ((to - from) / 1_000_000) as u64
    }
}

/// Whole milliseconds from one time to another.
pub fn millis_between(from: u64, to: u64) -> (ms: u64)
    ensures
        ms == elapsed_ms(from, to),
{
    to.saturating_sub(from) / 1_000_000
}

impl SessionState {
    /// No session yet, at the time `now`.
    pub fn new(now: u64) -> (s: SessionState)
        ensures
            s == (SessionState {
                phase: SessionPhase::Idle,
                started_at: now,
                pending_stop: false,
                cancelled: false,
                focus_target: None,
                session_id: SessionId { value: 0 },
                front_app: None,
            }),
    {
        SessionState {
            phase: SessionPhase::Idle,
            started_at: now,
            pending_stop: false,
            cancelled: false,
            focus_target: None,
            session_id: initial_session_id(),
            front_app: None,
        }
    }
}

impl Default for SessionState {
    fn default() -> (s: SessionState)
        ensures
            s == (SessionState {
                phase: SessionPhase::Idle,
                started_at: 0,
                pending_stop: false,
                cancelled: false,
                focus_target: None,
                session_id: SessionId { value: 0 },
                front_app: None,
            }),
    {
        SessionState::new(0)
    }
}

/// Starts a session. Only an idle one can start; it gets a new identifier.
pub fn begin_session_state(
    state: &mut SessionState,
    now: u64,
    focus_target: Option<usize>,
    front_app: Option<String>,
) -> (r: Option<SessionId>)
    ensures
        r is Some <==> old(state).phase == SessionPhase::Idle,
        r matches Some(id) ==> id.value != 0 && *final(state) == (SessionState {
            phase: SessionPhase::Starting,
            started_at: now,
            pending_stop: false,
            cancelled: false,
            focus_target,
            session_id: id,
            front_app,
        }),
        r is None ==> *final(state) == *old(state),
{
    if state.phase != SessionPhase::Idle {
        return None;
    }
    let id = new_session_id();
    state.phase = SessionPhase::Starting;
    state.started_at = now;
    state.pending_stop = false;
    state.cancelled = false;
    state.focus_target = focus_target;
    state.session_id = id;
    state.front_app = front_app;
    Some(id)
}

/// Notes a stop that comes while the session starts.
pub fn request_stop_during_starting_state(state: &mut SessionState) -> (r: bool)
    ensures
        r == (old(state).phase == SessionPhase::Starting),
        *final(state) == if r {
            SessionState { pending_stop: true, ..*old(state) }
        } else {
            *old(state)
        },
{
    if state.phase != SessionPhase::Starting {
        return false;
    }
    state.pending_stop = true;
    true
}

/// What finishing the start of a session comes to.
#[derive(Clone, Copy, PartialEq, Eq, Structural, Debug)]
pub enum BeginOutcome {
    /// The start belongs to an older session, which must not touch the current one.
    StaleContinuation,
    Started,
    /// A stop is waiting: the session ends at once.
    PendingStop,
    /// The session was cancelled meanwhile: what was set up must go.
    CancelRaced,
}

/// What a continuation that was started for the session `id` finds.
pub open spec fn race_of(state: SessionState, id: SessionId) -> StartupRaceStatus {
    if state.session_id != id {
        StartupRaceStatus::StaleContinuation
    } else if state.cancelled || state.phase != SessionPhase::Starting {
        StartupRaceStatus::CancelRaced
    } else {
        StartupRaceStatus::ActiveStarting
    }
}

/// Finishes the start of a session: it listens now, unless it was cancelled or is stale.
pub fn finish_starting_session_state(state: &mut SessionState, session_id: SessionId) -> (r:
    BeginOutcome)
    ensures
        match race_of(*old(state), session_id) {
            StartupRaceStatus::StaleContinuation => {
                r == BeginOutcome::StaleContinuation && *final(state) == *old(state)
            },
            StartupRaceStatus::CancelRaced => {
                r == BeginOutcome::CancelRaced && *final(state) == *old(state)
            },
            StartupRaceStatus::ActiveStarting => {
                &&& r == if old(state).pending_stop {
                    BeginOutcome::PendingStop
                } else {
                    BeginOutcome::Started
                }
                &&& *final(state) == (SessionState {
                    phase: SessionPhase::Listening,
                    pending_stop: false,
                    ..*old(state)
                })
            },
        },
{
    if state.session_id != session_id {
        BeginOutcome::StaleContinuation
    } else if state.cancelled || state.phase != SessionPhase::Starting {
        BeginOutcome::CancelRaced
    } else {
        state.phase = SessionPhase::Listening;
        let pending = state.pending_stop;
        state.pending_stop = false;
        if pending {
            BeginOutcome::PendingStop
        } else {
            BeginOutcome::Started
        }
    }
}

/// What a continuation of the start finds.
#[derive(Clone, Copy, PartialEq, Eq, Structural, Debug)]
pub enum StartupRaceStatus {
    ActiveStarting,
    CancelRaced,
    StaleContinuation,
}

/// Whether the start that the session was captured for still goes on.
pub fn startup_race_status(state: &SessionState, captured_session_id: SessionId) -> (r:
    StartupRaceStatus)
    ensures
        r == race_of(*state, captured_session_id),
{
    if state.session_id != captured_session_id {
        StartupRaceStatus::StaleContinuation
    } else if state.cancelled || state.phase != SessionPhase::Starting {
        StartupRaceStatus::CancelRaced
    } else {
        StartupRaceStatus::ActiveStarting
    }
}

/// A session that is being cancelled, and the phase it was in.
#[derive(Clone, Copy, PartialEq, Eq, Structural, Debug)]
pub struct CancelDecision {
    pub phase: SessionPhase,
    pub session_id: SessionId,
}

/// Whether a session in that phase can be cancelled.
pub open spec fn cancellable(phase: SessionPhase) -> bool {
    phase != SessionPhase::Idle && phase != SessionPhase::Inserting
}

/// A state after the first half of cancelling.
pub open spec fn cancel_begun(state: SessionState) -> SessionState {
    if cancellable(state.phase) {
        SessionState { cancelled: true, ..state }
    } else {
        state
    }
}

/// A state after the second half of cancelling a session that was in that phase.
pub open spec fn cancel_finished(state: SessionState, phase: SessionPhase) -> SessionState {
    SessionState {
        focus_target: None,
        phase: if phase == SessionPhase::Processing {
            state.phase
        } else {
            SessionPhase::Idle
        },
        ..state
    }
}

/// First half of cancelling. There is nothing to cancel when idle, and it is too late when
/// inserting.
pub fn begin_cancel_session_state(state: &mut SessionState) -> (r: Option<CancelDecision>)
    ensures
        cancellable(old(state).phase) ==> {
            &&& r == Some(
                CancelDecision { phase: old(state).phase, session_id: old(state).session_id },
            )
        },
        !cancellable(old(state).phase) ==> r is None,
        *final(state) == cancel_begun(*old(state)),
{
    let phase = state.phase;
    if phase == SessionPhase::Idle || phase == SessionPhase::Inserting {
        return None;
    }
    state.cancelled = true;
    Some(CancelDecision { phase, session_id: state.session_id })
}

/// Second half of cancelling, after the resources are gone. A session in `Processing` stays there:
/// the end of the session finishes it.
pub fn finish_cancel_session_state(state: &mut SessionState, decision: CancelDecision)
    ensures
        *final(state) == cancel_finished(*old(state), decision.phase),
{
    state.focus_target = None;
    if decision.phase != SessionPhase::Processing {
        state.phase = SessionPhase::Idle;
    }
}

/// Whether the end of the session `id` may finish its cancellation.
pub open spec fn finishes_cancel(state: SessionState, id: SessionId) -> bool {
    &&& state.session_id == id
    &&& state.cancelled
    &&& (state.phase == SessionPhase::Processing || state.phase == SessionPhase::Idle)
}

/// Finishes the cancellation of a session that was being processed. A stale session changes
/// nothing.
pub fn finish_cancelled_processing_state(state: &mut SessionState, session_id: SessionId) -> (r:
    bool)
    ensures
        r == finishes_cancel(*old(state), session_id),
        *final(state) == if r {
            SessionState { phase: SessionPhase::Idle, focus_target: None, ..*old(state) }
        } else {
            *old(state)
        },
{
    if state.session_id != session_id || !state.cancelled {
        return false;
    }
    if state.phase == SessionPhase::Processing {
        state.phase = SessionPhase::Idle;
    }
    if state.phase != SessionPhase::Idle {
        return false;
    }
    state.focus_target = None;
    true
}

/// Ends the recording of a session that listens.
pub fn start_processing_if_listening(state: &mut SessionState) -> (r: Option<SessionId>)
    ensures
        old(state).phase == SessionPhase::Listening ==> {
            &&& r == Some(old(state).session_id)
            &&& *final(state) == (SessionState { phase: SessionPhase::Processing, ..*old(state) })
        },
        old(state).phase != SessionPhase::Listening ==> r is None && *final(state) == *old(state),
{
    if state.phase != SessionPhase::Listening {
        return None;
    }
    state.phase = SessionPhase::Processing;
    Some(state.session_id)
}

/// A recording that is given up, and how long it ran.
#[derive(Clone, Copy, PartialEq, Eq, Structural, Debug)]
pub struct RecordingAbort {
    pub elapsed: u64,
    pub session_id: SessionId,
}

/// Whether a failing recorder ends the session.
pub open spec fn abortable(state: SessionState) -> bool {
    &&& !state.cancelled
    &&& (state.phase == SessionPhase::Starting || state.phase == SessionPhase::Listening)
}

/// First half of giving up a recording: the session keeps its phase until its resources are gone.
pub fn begin_recording_abort_before_restore(state: &mut SessionState, now: u64) -> (r: Option<
    RecordingAbort,
>)
    ensures
        abortable(*old(state)) ==> {
            &&& r == Some(
                RecordingAbort {
                    elapsed: elapsed_ms(old(state).started_at, now),
                    session_id: old(state).session_id,
                },
            )
            &&& *final(state) == (SessionState { cancelled: true, ..*old(state) })
        },
        !abortable(*old(state)) ==> r is None && *final(state) == *old(state),
{
    if state.cancelled || !(state.phase == SessionPhase::Starting || state.phase
        == SessionPhase::Listening) {
        return None;
    }
    state.cancelled = true;
    Some(
        RecordingAbort {
            elapsed: millis_between(state.started_at, now),
            session_id: state.session_id,
        },
    )
}

/// The state with the session idle, where it is the session `id`.
pub open spec fn idle_if_current(state: SessionState, id: SessionId) -> SessionState {
    if state.session_id == id {
        SessionState { phase: SessionPhase::Idle, ..state }
    } else {
        state
    }
}

/// Second half of giving up a recording: the session is idle, unless a newer one has begun.
pub fn publish_abort_idle_after_restore(state: &mut SessionState, session_id: SessionId)
    ensures
        *final(state) == idle_if_current(*old(state), session_id),
{
    if state.session_id == session_id {
        state.phase = SessionPhase::Idle;
    }
}

/// A continuation of an older session never changes the state of the current one.
pub proof fn law_stale_session_changes_nothing(state: SessionState, id: SessionId)
    requires
        state.session_id != id,
    ensures
        race_of(state, id) == StartupRaceStatus::StaleContinuation,
        !finishes_cancel(state, id),
        idle_if_current(state, id) == state,
{
}

/// A state after both halves of cancelling.
pub open spec fn cancelled_state(state: SessionState) -> SessionState {
    if cancellable(state.phase) {
        cancel_finished(cancel_begun(state), state.phase)
    } else {
        cancel_begun(state)
    }
}

/// Cancelling leaves an idle and an inserting session as they are, ends every other one, and does
/// nothing more the second time.
pub proof fn law_cancelling(state: SessionState)
    ensures
        state.phase == SessionPhase::Idle || state.phase == SessionPhase::Inserting
            ==> cancelled_state(state) == state,
        state.phase == SessionPhase::Starting || state.phase == SessionPhase::Listening
            ==> cancelled_state(state).phase == SessionPhase::Idle,
        cancellable(state.phase) ==> cancelled_state(state).focus_target is None,
        cancelled_state(cancelled_state(state)) == cancelled_state(state),
{
}

/// A start goes on just where it belongs to the current session, which is still starting and was not
/// cancelled.
pub proof fn law_start_goes_on(state: SessionState, id: SessionId)
    ensures
        race_of(state, id) == StartupRaceStatus::ActiveStarting <==> state.session_id == id
            && !state.cancelled && state.phase == SessionPhase::Starting,
        race_of(state, id) == StartupRaceStatus::CancelRaced <==> state.session_id == id && (
        state.cancelled || state.phase != SessionPhase::Starting),
{
}

/// A session that is being processed keeps its phase while it is cancelled, and its own end, and no
/// other, makes it idle. One that was not cancelled, or is inserting already, is not ended so.
pub proof fn law_processing_is_cancelled_by_its_end(state: SessionState, id: SessionId)
    ensures
        state.phase == SessionPhase::Processing ==> cancelled_state(state).phase
            == SessionPhase::Processing && cancelled_state(state).cancelled,
        finishes_cancel(state, id) ==> state.session_id == id && state.cancelled && state.phase
            != SessionPhase::Inserting && state.phase != SessionPhase::Listening && state.phase
            != SessionPhase::Starting,
        state.phase == SessionPhase::Processing ==> finishes_cancel(
            cancelled_state(state),
            state.session_id,
        ),
        idle_if_current(state, state.session_id).phase == SessionPhase::Idle,
        idle_if_current(state, state.session_id).cancelled == state.cancelled,
{
}

/// A recorder that fails ends a session that starts or listens, and no session that was cancelled or
/// whose recording is over.
pub proof fn law_failing_recorder_ends_the_recording(state: SessionState)
    ensures
        abortable(state) <==> !state.cancelled && (state.phase == SessionPhase::Starting
            || state.phase == SessionPhase::Listening),
        abortable(state) ==> cancellable(state.phase),
        cancellable(state.phase) <==> state.phase == SessionPhase::Starting || state.phase
            == SessionPhase::Listening || state.phase == SessionPhase::Processing,
{
}

/// Time is told in whole milliseconds, rounded down, and never runs backwards.
pub proof fn law_elapsed_time(from: u64, to: u64, later: u64)
    requires
        from <= to <= later,
    ensures
        1_000_000 * elapsed_ms(from, to) <= to - from < 1_000_000 * (elapsed_ms(from, to) + 1),
        elapsed_ms(from, to) <= elapsed_ms(from, later),
        to > from ==> elapsed_ms(to, from) == 0,
{
}

} // verus!
