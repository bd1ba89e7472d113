//! What the capsule window shows, and the application that had the focus.
use vstd::prelude::*;

use crate::coordinator::inner::{CapsuleTrack, Coordinator};
use crate::coordinator_state::{elapsed_ms, millis_between, SessionPhase};
use crate::text::join3;
use crate::types::{opt_text, CapsuleState};

verus! {

/// The least time between two frames that show the sound level, in nanoseconds.
pub const LEVEL_EMIT_MIN_INTERVAL: u64 = 33_000_000;

/// The capsule shows that a session is under way.
pub open spec fn under_way(state: CapsuleState) -> bool {
    state == CapsuleState::Recording || state == CapsuleState::Transcribing || state
        == CapsuleState::Polishing
}

/// Whether Escape belongs to dictation alone: the capsule shows that a session is under way, and
/// there is one.
pub fn esc_exclusive_for_capsule(state: CapsuleState, phase: SessionPhase) -> (r: bool)
    ensures
        r == (under_way(state) && phase != SessionPhase::Idle),
{
    (state == CapsuleState::Recording || state == CapsuleState::Transcribing || state
        == CapsuleState::Polishing) && phase != SessionPhase::Idle
}

/// What becomes of the capsule window.
#[derive(Clone, Copy, PartialEq, Eq, Structural, Debug)]
pub enum CapsuleDisplay {
    Show,
    /// The user does not want to see it.
    Hide,
    Unchanged,
}

/// One frame of the capsule.
#[derive(Debug)]
pub struct CapsuleFrame {
    pub epoch: u64,
    pub state: CapsuleState,
    pub elapsed_ms: u64,
    pub message: Option<String>,
    pub inserted_chars: Option<u32>,
    pub translation: bool,
    /// The microphone has not given sound yet.
    pub warming: bool,
    /// Escape belongs to dictation alone.
    pub esc_exclusive: bool,
    /// The capsule was not visible before.
    pub is_entry_frame: bool,
    pub display: CapsuleDisplay,
}

/// Something of the capsule is to be seen.
pub open spec fn visible(state: Option<CapsuleState>) -> bool {
    state matches Some(s) && s != CapsuleState::Idle
}

/// What the capsule shows after one more frame.
pub open spec fn track_after(track: CapsuleTrack, state: CapsuleState) -> CapsuleTrack {
    CapsuleTrack {
        epoch: if track.epoch == u64::MAX {
            0
        } else {
            (track.epoch + 1) as u64
        },
        last_state: Some(state),
        ..track
    }
}

/// A frame is one that a coordinator shows.
pub open spec fn frame_of(
    c: Coordinator,
    state: CapsuleState,
    phase: SessionPhase,
    show_capsule: bool,
    frame: CapsuleFrame,
) -> bool {
    &&& frame.epoch == track_after(c.capsule, state).epoch
    &&& frame.state == state
    &&& frame.translation == c.translation_modifier_seen
    &&& frame.warming == (state == CapsuleState::Recording && c.capsule.warming)
    &&& frame.esc_exclusive == (under_way(state) && phase != SessionPhase::Idle)
    &&& frame.is_entry_frame == (state != CapsuleState::Idle && !visible(c.capsule.last_state))
    &&& frame.display == if state == CapsuleState::Idle {
        CapsuleDisplay::Unchanged
    } else if show_capsule {
        CapsuleDisplay::Show
    } else {
        CapsuleDisplay::Hide
    }
}

/// A sound level is shown: while recording, and not too soon after the last one.
pub open spec fn level_is_shown(phase: SessionPhase, last_emit: Option<u64>, now: u64) -> bool {
    &&& phase == SessionPhase::Listening || phase == SessionPhase::Starting
    &&& last_emit matches Some(t) ==> now - t >= LEVEL_EMIT_MIN_INTERVAL
}

/// A timer that was set when the capsule showed that hides it.
pub open spec fn timer_hides(c: Coordinator, expected: Option<CapsuleState>) -> bool {
    c.capsule.last_state == expected && c.state.phase == SessionPhase::Idle
}

/// The name of an application: its own, with its identifier in brackets.
pub open spec fn app_label(name: Option<Seq<char>>, bundle: Option<Seq<char>>) -> Option<
    Seq<char>,
> {
    match (name, bundle) {
        (Some(n), Some(b)) => Some(n + " ("@ + b + ")"@),
        (Some(n), None) => Some(n),
        (None, other) => other,
    }
}

impl Coordinator {
    /// Shows something in the capsule. `phase` is the phase in which it was asked for.
    pub fn emit_capsule(
        &mut self,
        state: CapsuleState,
        phase: SessionPhase,
        elapsed_ms: u64,
        message: Option<String>,
        inserted_chars: Option<u32>,
        show_capsule: bool,
    ) -> (r: CapsuleFrame)
        ensures
            frame_of(*old(self), state, phase, show_capsule, r),
            r.elapsed_ms == elapsed_ms,
            r.message == message,
            r.inserted_chars == inserted_chars,
            *final(self) == (Coordinator {
                capsule: track_after(old(self).capsule, state),
                ..*old(self)
            }),
    {
        let was_visible = match self.capsule.last_state {
            Some(s) => s != CapsuleState::Idle,
            None => false,
        };
        self.capsule.epoch = self.capsule.epoch.wrapping_add(1);
        self.capsule.last_state = Some(state);
        let now_visible = state != CapsuleState::Idle;
        CapsuleFrame {
            epoch: self.capsule.epoch,
            state,
            elapsed_ms,
            message,
            inserted_chars,
            translation: self.translation_modifier_seen,
            warming: state == CapsuleState::Recording && self.capsule.warming,
            esc_exclusive: esc_exclusive_for_capsule(state, phase),
            is_entry_frame: now_visible && !was_visible,
            display: if !now_visible {
                CapsuleDisplay::Unchanged
            } else if show_capsule {
                CapsuleDisplay::Show
            } else {
                CapsuleDisplay::Hide
            },
        }
    }

    /// A timer that was to hide the capsule has run out. It was set when the capsule showed
    /// `expected`; it hides the capsule only where that is still so and no session is under way.
    pub fn capsule_timer_fired(&mut self, expected: Option<CapsuleState>, show_capsule: bool) -> (r:
        Option<CapsuleFrame>)
        ensures
            r is Some <==> timer_hides(*old(self), expected),
            r is None ==> *final(self) == *old(self),
            r matches Some(frame) ==> {
                &&& frame_of(
                    *old(self),
                    CapsuleState::Idle,
                    SessionPhase::Idle,
                    show_capsule,
                    frame,
                )
                &&& frame.elapsed_ms == 0
                &&& frame.message is None
                &&& frame.inserted_chars is None
                &&& *final(self) == (Coordinator {
                    capsule: track_after(old(self).capsule, CapsuleState::Idle),
                    ..*old(self)
                })
            },
    {
        let unchanged = match (self.capsule.last_state, expected) {
            (Some(a), Some(b)) => a == b,
            (None, None) => true,
            _ => false,
        };
        if !unchanged || self.state.phase != SessionPhase::Idle {
            return None;
        }
        Some(self.emit_capsule(CapsuleState::Idle, SessionPhase::Idle, 0, None, None, show_capsule))
    }

    /// The recorder gave a sound level. Where it is to be shown, the result is how long the session
    /// has run: not after the recording, and not too often.
    pub fn level_frame(&mut self, last_emit: &mut Option<u64>, now: u64) -> (r: Option<u64>)
        ensures
            ({
                let shown = level_is_shown(old(self).state.phase, *old(last_emit), now);
                &&& r == if shown {
                    Some(elapsed_ms(old(self).state.started_at, now))
                } else {
                    None
                }
                &&& *final(last_emit) == if shown {
                    Some(now)
                } else {
                    *old(last_emit)
                }
                &&& *final(self) == (Coordinator {
                    capsule: CapsuleTrack {
                        warming: old(self).capsule.warming && !shown,
                        ..old(self).capsule
                    },
                    ..*old(self)
                })
            }),
    {
        if self.state.phase != SessionPhase::Listening && self.state.phase
            != SessionPhase::Starting {
            return None;
        }
        match *last_emit {
            Some(t) => {
                if now < t || now - t < LEVEL_EMIT_MIN_INTERVAL {
                    return None;
                }
            },
            None => {},
        }
        *last_emit = Some(now);
        self.capsule.warming = false;
        Some(millis_between(self.state.started_at, now))
    }
}

/// A timer never hides what was shown after it was set, unless the capsule shows the same again and
/// no session is under way.
pub proof fn law_old_timer_hides_nothing_newer(
    track: CapsuleTrack,
    shown: CapsuleState,
    newer: CapsuleState,
)
    requires
        shown != newer,
    ensures
        track_after(track_after(track, shown), newer).last_state != track_after(
            track,
            shown,
        ).last_state,
{
}

/// The name of an application: its own, with its identifier in brackets.
pub fn front_app_label(name: Option<String>, bundle: Option<String>) -> (r: Option<String>)
    ensures
        opt_text(r) == app_label(opt_text(name), opt_text(bundle)),
{
    match (name, bundle) {
        (Some(n), Some(b)) => {
            let mut label = join3(n.as_str(), " (", b.as_str());
            label.append(")");
            Some(label)
        },
        (Some(n), None) => Some(n),
        (None, other) => other,
    }
}

/// The capsule tells what goes on: each frame is newer than the last, the first one that is seen is
/// marked as such, Escape is kept for dictation only while a session is under way, and the window is
/// shown only where the user wants to see it.
pub proof fn law_frame_tells_what_goes_on(
    c: Coordinator,
    state: CapsuleState,
    phase: SessionPhase,
    show_capsule: bool,
    frame: CapsuleFrame,
)
    requires
        frame_of(c, state, phase, show_capsule, frame),
        c.capsule.epoch < u64::MAX,
    ensures
        frame.state == state,
        frame.epoch == c.capsule.epoch + 1,
        track_after(c.capsule, state).epoch == frame.epoch,
        track_after(c.capsule, state).last_state == Some(state),
        track_after(c.capsule, state).warming == c.capsule.warming,
        frame.translation == c.translation_modifier_seen,
        frame.esc_exclusive <==> phase != SessionPhase::Idle && (state == CapsuleState::Recording
            || state == CapsuleState::Transcribing || state == CapsuleState::Polishing),
        frame.is_entry_frame <==> state != CapsuleState::Idle && (c.capsule.last_state is None
            || c.capsule.last_state == Some(CapsuleState::Idle)),
        frame.display == CapsuleDisplay::Show <==> state != CapsuleState::Idle && show_capsule,
        frame.display == CapsuleDisplay::Hide <==> state != CapsuleState::Idle && !show_capsule,
        frame.warming ==> state == CapsuleState::Recording && c.capsule.warming,
        state == CapsuleState::Recording && c.capsule.warming ==> frame.warming,
{
}

/// The sound level is shown only while a session starts or listens, and at most every 33
/// milliseconds; the first one is shown at once.
pub proof fn law_level_is_shown_while_recording(phase: SessionPhase, last: u64, now: u64)
    ensures
        phase == SessionPhase::Starting || phase == SessionPhase::Listening ==> {
            &&& level_is_shown(phase, None, now)
            &&& level_is_shown(phase, Some(last), now) <==> now >= last + 33_000_000
        },
        phase != SessionPhase::Starting && phase != SessionPhase::Listening ==> !level_is_shown(
            phase,
            None,
            now,
        ) && !level_is_shown(phase, Some(last), now),
{
}

/// A timer hides the capsule only while no session is under way and the capsule still shows what it
/// showed when the timer was set.
pub proof fn law_timer_hides_what_it_was_set_for(c: Coordinator, expected: Option<CapsuleState>)
    ensures
        c.state.phase != SessionPhase::Idle ==> !timer_hides(c, expected),
        c.capsule.last_state != expected ==> !timer_hides(c, expected),
        c.state.phase == SessionPhase::Idle ==> timer_hides(c, c.capsule.last_state),
{
}

/// An application is named by what is known of it, its name before its identifier.
pub proof fn law_application_is_named(name: Seq<char>, bundle: Seq<char>)
    ensures
        app_label(Some(name), Some(bundle)) == Some(name + " ("@ + bundle + ")"@),
        app_label(Some(name), None) == Some(name),
        app_label(None, Some(bundle)) == Some(bundle),
        app_label(None, None) is None,
{
}

/// Frames are numbered one after the other; after the largest number they begin anew with zero.
pub proof fn law_frames_are_numbered(track: CapsuleTrack, state: CapsuleState)
    ensures
        track.epoch < u64::MAX ==> track_after(track, state).epoch == track.epoch + 1,
        track.epoch == u64::MAX ==> track_after(track, state).epoch == 0,
{
}

} // verus!
