//! Cancelling a session, and giving one up whose recorder failed.
use vstd::prelude::*;

use crate::coordinator::inner::{
    clock_has_room, delete_effects, input_source_effects, put_delete, put_input_source,
    Coordinator, HotkeyEdges, LiveInsert, CAPSULE_AUTO_HIDE_DELAY_MS, CAPSULE_CANCEL_HIDE_DELAY_MS,
    POST_SESSION_COOLDOWN,
};
use crate::coordinator::resources::{
    cancel_asr_for_session, cancel_effects, discard_startup_resources_for_session, effects,
    error_capsule, plain_capsule, put, put_capsule, put_error, slot_after, stop_effects,
    stop_recorder_for_session, Effect, EffectView,
};
use crate::coordinator_state::{
    abortable, begin_cancel_session_state, begin_recording_abort_before_restore, cancel_begun,
    cancellable, cancelled_state, elapsed_ms, finish_cancel_session_state,
    finish_cancelled_processing_state, finishes_cancel, publish_abort_idle_after_restore, SessionId,
    SessionPhase, SessionState,
};
use crate::text::join2;
use crate::types::CapsuleState;

verus! {

/// The coordinator after a cancellation. Text that appeared while the user spoke goes in any case.
/// A session that is being processed keeps its phase, and its end sees that it was cancelled.
pub open spec fn after_cancel(c: Coordinator, now: u64) -> Coordinator {
    let live_insert = LiveInsert { enabled: false, prev_len: 0, prev_ime: None };
    if !cancellable(c.state.phase) {
        Coordinator { live_insert, ..c }
    } else {
        let id = c.state.session_id;
        let processing = c.state.phase == SessionPhase::Processing;
        Coordinator {
            live_insert,
            state: if processing {
                cancel_begun(c.state)
            } else {
                cancelled_state(c.state)
            },
            hotkey: if processing {
                c.hotkey
            } else {
                HotkeyEdges {
                    cooldown_until: Some((now + POST_SESSION_COOLDOWN) as u64),
                    ..c.hotkey
                }
            },
            recorder: slot_after(c.recorder, id),
            asr: slot_after(c.asr, id),
            ..c
        }
    }
}

/// What a cancellation asks for: the capsule goes first, then recorder and engine.
pub open spec fn cancel_asks(c: Coordinator) -> Seq<EffectView> {
    let id = c.state.session_id;
    delete_effects(c.live_insert.prev_len) + input_source_effects(c.live_insert.prev_ime) + (
    if cancellable(c.state.phase) {
        seq![
            plain_capsule(
                CapsuleState::Cancelled,
                if c.state.phase == SessionPhase::Processing {
                    SessionPhase::Processing
                } else {
                    SessionPhase::Idle
                },
                0,
            ),
            EffectView::ScheduleCapsuleIdle { delay_ms: CAPSULE_CANCEL_HIDE_DELAY_MS },
        ] + stop_effects(c.recorder, id) + cancel_effects(c.asr, id) + seq![
            EffectView::RestoreIme { session: id },
        ]
    } else {
        seq![]
    })
}

/// The coordinator after the end of a cancelled session.
pub open spec fn after_finish_cancelled(c: Coordinator, id: SessionId) -> Coordinator {
    if finishes_cancel(c.state, id) {
        Coordinator {
            state: SessionState { phase: SessionPhase::Idle, focus_target: None, ..c.state },
            ..c
        }
    } else {
        c
    }
}

/// What the end of a cancelled session asks for.
pub open spec fn finish_cancelled_asks(c: Coordinator, id: SessionId) -> Seq<EffectView> {
    if finishes_cancel(c.state, id) {
        seq![EffectView::ScheduleCapsuleIdle { delay_ms: CAPSULE_CANCEL_HIDE_DELAY_MS }]
    } else {
        seq![]
    }
}

/// The coordinator after a recording was given up.
pub open spec fn after_abort(c: Coordinator) -> Coordinator {
    Coordinator {
        state: SessionState { phase: SessionPhase::Idle, cancelled: true, ..c.state },
        recorder: slot_after(c.recorder, c.state.session_id),
        asr: slot_after(c.asr, c.state.session_id),
        ..c
    }
}

/// What giving up a recording asks for: recorder and engine go, and the user is told why.
pub open spec fn abort_asks(c: Coordinator, message: Seq<char>, now: u64) -> Seq<EffectView> {
    stop_effects(c.recorder, c.state.session_id) + cancel_effects(c.asr, c.state.session_id) + seq![
        EffectView::RestoreIme { session: c.state.session_id },
        error_capsule(message, SessionPhase::Idle, elapsed_ms(c.state.started_at, now)),
        EffectView::ScheduleCapsuleIdle { delay_ms: CAPSULE_AUTO_HIDE_DELAY_MS },
    ]
}

impl Coordinator {
    /// Cancels the current session. The result tells whether there was one to cancel.
    pub fn cancel_session(&mut self, now: u64, out: &mut Vec<Effect>) -> (r: bool)
        requires
            clock_has_room(now),
        ensures
            r == cancellable(old(self).state.phase),
            *final(self) == after_cancel(*old(self), now),
            effects(final(out)@) == effects(old(out)@) + cancel_asks(*old(self)),
    {
        self.live_insert.enabled = false;
        let temp_len: usize = self.live_insert.prev_len;
        self.live_insert.prev_len = 0;
        put_delete(out, temp_len);
        let prev_ime = self.live_insert.prev_ime;
        self.live_insert.prev_ime = None;
        put_input_source(out, prev_ime);
        let decision = match begin_cancel_session_state(&mut self.state) {
            Some(decision) => decision,
            None => {
                assert(effects(out@) =~= effects(old(out)@) + cancel_asks(*old(self)));
                return false;
            },
        };
        if decision.phase != SessionPhase::Processing {
            finish_cancel_session_state(&mut self.state, decision);
            self.cool_down(now);
        }
        put_capsule(out, CapsuleState::Cancelled, self.state.phase, 0);
        put(out, Effect::ScheduleCapsuleIdle { delay_ms: CAPSULE_CANCEL_HIDE_DELAY_MS });
        stop_recorder_for_session(&mut self.recorder, decision.session_id, out);
        cancel_asr_for_session(&mut self.asr, decision.session_id, out);
        put(out, Effect::RestoreIme { session: decision.session_id });
        assert(effects(out@) =~= effects(old(out)@) + cancel_asks(*old(self)));
        true
    }

    /// Finishes a session that was cancelled while it was being processed.
    pub fn finish_cancelled_processing(&mut self, session: SessionId, out: &mut Vec<Effect>) -> (r:
        bool)
        ensures
            r == finishes_cancel(old(self).state, session),
            *final(self) == after_finish_cancelled(*old(self), session),
            effects(final(out)@) == effects(old(out)@) + finish_cancelled_asks(*old(self), session),
    {
        let finished = finish_cancelled_processing_state(&mut self.state, session);
        if finished {
            put(out, Effect::ScheduleCapsuleIdle { delay_ms: CAPSULE_CANCEL_HIDE_DELAY_MS });
        }
        assert(effects(out@) =~= effects(old(out)@) + finish_cancelled_asks(*old(self), session));
        finished
    }

    /// Gives up the current recording because the recorder failed, and shows why.
    pub fn abort_recording_with_error(&mut self, message: String, now: u64, out: &mut Vec<Effect>)
        ensures
            !abortable(old(self).state) ==> {
                &&& *final(self) == *old(self)
                &&& effects(final(out)@) == effects(old(out)@)
            },
            abortable(old(self).state) ==> {
                &&& *final(self) == after_abort(*old(self))
                &&& effects(final(out)@) == effects(old(out)@) + abort_asks(
                    *old(self),
                    message@,
                    now,
                )
            },
    {
        let abort = match begin_recording_abort_before_restore(&mut self.state, now) {
            Some(abort) => abort,
            None => {
                return;
            },
        };
        discard_startup_resources_for_session(
            &mut self.recorder,
            &mut self.asr,
            abort.session_id,
            out,
        );
        let ghost before = effects(out@);
        put(out, Effect::RestoreIme { session: abort.session_id });
        publish_abort_idle_after_restore(&mut self.state, abort.session_id);
        put_error(out, message, self.state.phase, abort.elapsed);
        put(out, Effect::ScheduleCapsuleIdle { delay_ms: CAPSULE_AUTO_HIDE_DELAY_MS });
        assert(effects(out@) =~= before + seq![
            EffectView::RestoreIme { session: abort.session_id },
            error_capsule(message@, SessionPhase::Idle, abort.elapsed),
            EffectView::ScheduleCapsuleIdle { delay_ms: CAPSULE_AUTO_HIDE_DELAY_MS },
        ]);
    }

    /// The recorder of a session failed. What comes late, from a session that is over, is ignored.
    pub fn on_recorder_error(
        &mut self,
        session: SessionId,
        error: &str,
        now: u64,
        out: &mut Vec<Effect>,
    )
        ensures
            old(self).state.session_id != session || !abortable(old(self).state) ==> {
                &&& *final(self) == *old(self)
                &&& effects(final(out)@) == effects(old(out)@)
            },
            old(self).state.session_id == session && abortable(old(self).state) ==> {
                &&& *final(self) == after_abort(*old(self))
                &&& effects(final(out)@) == effects(old(out)@) + abort_asks(
                    *old(self),
                    "录音中断: "@ + error@,
                    now,
                )
            },
    {
        if self.state.session_id != session {
            return;
        }
        self.abort_recording_with_error(join2("录音中断: ", error), now, out);
    }
}

/// Cancelling twice does no more than cancelling once, and a session that was cancelled has neither
/// recorder nor engine left.
pub proof fn law_cancel_leaves_nothing_behind(c: Coordinator, now: u64, later: u64)
    requires
        clock_has_room(now),
        clock_has_room(later),
        c.state.phase == SessionPhase::Starting || c.state.phase == SessionPhase::Listening,
    ensures
        after_cancel(c, now).state.phase == SessionPhase::Idle,
        after_cancel(c, now).state.cancelled,
        after_cancel(after_cancel(c, now), later) == after_cancel(c, now),
        cancel_asks(after_cancel(c, now)) == Seq::<EffectView>::empty(),
        forall|r: crate::coordinator::resources::SessionResource<()>|
            after_cancel(c, now).recorder == Some(r) ==> r.session_id != c.state.session_id,
        forall|r: crate::coordinator::resources::SessionResource<
            crate::coordinator::resources::Engine,
        >| after_cancel(c, now).asr == Some(r) ==> r.session_id != c.state.session_id,
{
    assert(cancel_asks(after_cancel(c, now)) =~= Seq::<EffectView>::empty());
}

/// A session is cancelled with all that it has at the cursor and outside: text that appeared while
/// the user spoke is deleted, the input source is given back, recorder and engine are stopped, and
/// no press that toggles begins another for six tenths of a second. While text is being inserted
/// it is too late, and without a session there is nothing to cancel.
pub proof fn law_cancel_takes_all_back(c: Coordinator, now: u64)
    requires
        clock_has_room(now),
    ensures
        ({
            let id = c.state.session_id;
            let after = after_cancel(c, now);
            let asks = cancel_asks(c);
            let runs = c.state.phase != SessionPhase::Idle && c.state.phase
                != SessionPhase::Inserting;
            &&& c.live_insert.prev_len > 0 ==> asks[0] == EffectView::DeleteChars {
                count: c.live_insert.prev_len,
            }
            &&& c.live_insert.prev_ime is Some ==> asks.contains(
                EffectView::RestoreInputSource { source: c.live_insert.prev_ime->0 },
            )
            &&& after.live_insert.prev_len == 0 && !after.live_insert.enabled
                && after.live_insert.prev_ime is None
            &&& !runs ==> after.state == c.state && after.recorder == c.recorder && after.asr
                == c.asr
            &&& runs ==> {
                &&& after.state.cancelled
                &&& after.state.session_id == id
                &&& c.recorder is Some && c.recorder->0.session_id == id ==> asks.contains(
                    EffectView::StopRecorder { session: id },
                ) && after.recorder is None
                &&& c.asr is Some && c.asr->0.session_id == id ==> asks.contains(
                    EffectView::CancelAsr { engine: c.asr->0.resource },
                ) && after.asr is None
                &&& asks.last() == EffectView::RestoreIme { session: id }
                &&& asks.contains(EffectView::ScheduleCapsuleIdle { delay_ms: 0 })
            }
            &&& runs && c.state.phase != SessionPhase::Processing ==> {
                &&& after.state.phase == SessionPhase::Idle
                &&& after.hotkey.cooldown_until is Some
                &&& after.hotkey.cooldown_until->0 == now + 600_000_000
            }
            &&& c.state.phase == SessionPhase::Processing ==> after.state.phase
                == SessionPhase::Processing
        }),
{
    let id = c.state.session_id;
    let asks = cancel_asks(c);
    let d: int = if c.live_insert.prev_len > 0 {
        1
    } else {
        0
    };
    let s: int = if c.live_insert.prev_ime is Some {
        1
    } else {
        0
    };
    if c.live_insert.prev_ime is Some {
        assert(asks[d] == EffectView::RestoreInputSource { source: c.live_insert.prev_ime->0 });
    }
    if cancellable(c.state.phase) {
        assert(asks[d + s + 1] == EffectView::ScheduleCapsuleIdle { delay_ms: 0 });
        let r: int = stop_effects(c.recorder, id).len() as int;
        if r > 0 {
            assert(asks[d + s + 2] == EffectView::StopRecorder { session: id });
        }
        if c.asr is Some && c.asr->0.session_id == id {
            assert(asks[d + s + 2 + r] == EffectView::CancelAsr { engine: c.asr->0.resource });
        }
    }
}

/// A recording that was given up leaves no session, recorder or engine of it, and nothing at the
/// input method. The user is told why, for two seconds, and how long the recording had run.
pub proof fn law_given_up_recording_is_cleared_away(c: Coordinator, message: Seq<char>, now: u64)
    ensures
        ({
            let id = c.state.session_id;
            let after = after_abort(c);
            let asks = abort_asks(c, message, now);
            let n = asks.len() as int;
            &&& after.state.phase == SessionPhase::Idle
            &&& after.state.cancelled
            &&& after.state.session_id == id
            &&& after.hotkey == c.hotkey
            &&& after.live_insert == c.live_insert
            &&& after.recorder is Some ==> after.recorder->0.session_id != id
            &&& after.asr is Some ==> after.asr->0.session_id != id
            &&& n >= 3
            &&& asks[n - 3] == EffectView::RestoreIme { session: id }
            &&& asks[n - 2] matches EffectView::Capsule {
                state,
                phase,
                elapsed_ms: ran,
                message: told,
                inserted_chars,
            }
            &&& state == CapsuleState::Error
            &&& phase == SessionPhase::Idle
            &&& told == Some(message)
            &&& inserted_chars is None
            &&& c.state.started_at <= now ==> ran == (now - c.state.started_at) / 1_000_000
            &&& asks[n - 1] == EffectView::ScheduleCapsuleIdle { delay_ms: 2000 }
            &&& n == 3 + stop_effects(c.recorder, id).len() + cancel_effects(c.asr, id).len()
        }),
{
}

/// A session that was cancelled while it was processed is over with its own end: it is idle, has no
/// window to return to, and its capsule goes at once. The end of another session changes nothing.
pub proof fn law_cancelled_processing_ends(c: Coordinator, id: SessionId)
    ensures
        c.state.session_id == id && c.state.cancelled && c.state.phase == SessionPhase::Processing
            ==> {
            let after = after_finish_cancelled(c, id);
            &&& after.state.phase == SessionPhase::Idle
            &&& after.state.focus_target is None
            &&& after.state.session_id == id
            &&& finish_cancelled_asks(c, id).len() == 1
            &&& finish_cancelled_asks(c, id)[0] == EffectView::ScheduleCapsuleIdle { delay_ms: 0 }
        },
        c.state.session_id != id || !c.state.cancelled ==> after_finish_cancelled(c, id) == c
            && finish_cancelled_asks(c, id).len() == 0,
{
}

/// The capsule shows at once that a session was cancelled, before anything is stopped; where there is
/// nothing to cancel, only what stands at the cursor is taken back.
pub proof fn law_cancelling_is_shown_first(c: Coordinator)
    ensures
        ({
            let asks = cancel_asks(c);
            let runs = c.state.phase != SessionPhase::Idle && c.state.phase
                != SessionPhase::Inserting;
            let deleted: int = if c.live_insert.prev_len > 0 {
                1
            } else {
                0
            };
            let at: int = if c.live_insert.prev_ime is Some {
                deleted + 1
            } else {
                deleted
            };
            &&& !runs ==> asks.len() == at
            &&& runs ==> {
                &&& asks.len() >= at + 3
                &&& asks[at] == EffectView::Capsule {
                    state: CapsuleState::Cancelled,
                    phase: if c.state.phase == SessionPhase::Processing {
                        SessionPhase::Processing
                    } else {
                        SessionPhase::Idle
                    },
                    elapsed_ms: 0,
                    message: None,
                    inserted_chars: None,
                }
                &&& asks[at + 1] == EffectView::ScheduleCapsuleIdle { delay_ms: 0 }
            }
        }),
{
}

} // verus!
