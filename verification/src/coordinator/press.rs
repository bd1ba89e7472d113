//! Edges of the dictation key: when a press begins or ends a session, and presses that turn out to
//! be part of another key combination.
use vstd::prelude::*;

use crate::coordinator::cancel::{after_cancel, cancel_asks};
use crate::coordinator::inner::{clock_has_room, Coordinator, HotkeyEdges};
use crate::coordinator::resources::{
    effects, pending_stop_effects, slot_after_pending_stop, stop_recorder_if_pending_start_stop,
    Effect, EffectView,
};
use crate::coordinator_state::{
    cancellable, request_stop_during_starting_state, SessionPhase, SessionState,
};
use crate::types::{CapsuleState, HotkeyMode};

verus! {

/// Presses that follow each other faster count as one, in nanoseconds.
pub const HOTKEY_DEBOUNCE: u64 = 250_000_000;

/// From this long on, a press is a hold, in nanoseconds.
pub const AUTO_HOLD_THRESHOLD: u64 = 350_000_000;

/// How long a modifier alone may still become part of a combination, in milliseconds.
pub const COMBO_ARBITRATION_GRACE_MS: u64 = 150;

/// How many presses with another key are remembered.
pub const MAX_PENDING_COMBO_PRESSES: usize = 64;

/// What a press of the dictation key comes to.
#[derive(Clone, Copy, PartialEq, Eq, Structural, Debug)]
pub enum PressDecision {
    Ignored,
    /// A session is to begin.
    Begin,
    /// The session is to end.
    End,
    /// The session ends as soon as it has started.
    StopQueued,
}

/// The coordinator after a stop was asked for.
pub open spec fn after_stop_request(c: Coordinator) -> Coordinator {
    if c.state.phase == SessionPhase::Starting {
        let state = SessionState { pending_stop: true, ..c.state };
        Coordinator { state, recorder: slot_after_pending_stop(state, c.recorder), ..c }
    } else {
        c
    }
}

/// What a stop that comes while starting asks for.
pub open spec fn stop_request_asks(c: Coordinator, now: u64) -> Seq<EffectView> {
    if c.state.phase == SessionPhase::Starting {
        pending_stop_effects(SessionState { pending_stop: true, ..c.state }, c.recorder, now)
    } else {
        seq![]
    }
}

/// A session has ended so recently that no new one begins.
pub open spec fn cooling_down(c: Coordinator, now: u64) -> bool {
    c.hotkey.cooldown_until matches Some(deadline) && now < deadline
}

/// What a press comes to in each mode and phase.
pub open spec fn press_decision(
    mode: HotkeyMode,
    phase: SessionPhase,
    cooling: bool,
) -> PressDecision {
    match phase {
        SessionPhase::Idle => if mode != HotkeyMode::Hold && cooling {
            PressDecision::Ignored
        } else {
            PressDecision::Begin
        },
        SessionPhase::Listening => if mode == HotkeyMode::Hold {
            PressDecision::Ignored
        } else {
            PressDecision::End
        },
        SessionPhase::Starting => if mode == HotkeyMode::Hold {
            PressDecision::Ignored
        } else {
            PressDecision::StopQueued
        },
        _ => PressDecision::Ignored,
    }
}

/// The coordinator after a press that counts.
pub open spec fn after_pressed(
    c: Coordinator,
    mode: HotkeyMode,
    pressed_at: u64,
    now: u64,
) -> Coordinator {
    match press_decision(mode, c.state.phase, cooling_down(c, now)) {
        PressDecision::Begin => if mode == HotkeyMode::Auto {
            Coordinator {
                hotkey: HotkeyEdges { press_at: Some(pressed_at), ..c.hotkey },
                ..c
            }
        } else {
            c
        },
        PressDecision::StopQueued => after_stop_request(c),
        _ => c,
    }
}

/// What a press that counts asks for.
pub open spec fn pressed_asks(c: Coordinator, mode: HotkeyMode, now: u64) -> Seq<EffectView> {
    if press_decision(mode, c.state.phase, cooling_down(c, now)) == PressDecision::StopQueued {
        stop_request_asks(c, now)
    } else {
        seq![]
    }
}

/// The press comes too soon after the last one.
pub open spec fn too_soon(c: Coordinator, now: u64) -> bool {
    c.hotkey.last_dispatch_at matches Some(t) && now - t < HOTKEY_DEBOUNCE
}

/// The coordinator once it has taken note of a press, before it acts on it.
pub open spec fn noted_press(c: Coordinator, press_id: u64, now: u64) -> Coordinator {
    if c.hotkey.trigger_held {
        c
    } else {
        Coordinator {
            hotkey: HotkeyEdges {
                trigger_held: true,
                press_generation: press_id,
                press_began_session: 0,
                last_dispatch_at: if too_soon(c, now) {
                    c.hotkey.last_dispatch_at
                } else {
                    Some(now)
                },
                ..c.hotkey
            },
            ..c
        }
    }
}

/// The presses that are remembered, after one more to which another key was added.
pub open spec fn remembered(pending: Seq<u64>, press_id: u64) -> Seq<u64> {
    if pending.contains(press_id) {
        pending
    } else if pending.len() >= MAX_PENDING_COMBO_PRESSES {
        pending.push(press_id).skip(1)
    } else {
        pending.push(press_id)
    }
}

/// No press is remembered twice, and not more than the limit.
pub open spec fn bounded(pending: Seq<u64>) -> bool {
    pending.no_duplicates() && pending.len() <= MAX_PENDING_COMBO_PRESSES
}

/// Another key was added to the press, as far as is remembered or the key monitor says. A press
/// without a number has no such key.
pub open spec fn added(pending: Seq<u64>, press_id: u64, monitor_seen: bool) -> bool {
    press_id != 0 && (pending.contains(press_id) || monitor_seen)
}

/// The remembered presses after one was asked for.
pub open spec fn asked(pending: Seq<u64>, press_id: u64) -> Seq<u64> {
    if press_id == 0 {
        pending
    } else {
        pending.remove_value(press_id)
    }
}

/// The edges after a press that does not count.
pub open spec fn let_go(h: HotkeyEdges) -> HotkeyEdges {
    HotkeyEdges { trigger_held: false, press_at: None, last_dispatch_at: None, ..h }
}

/// The edges after a press that does not count and began no session after all.
pub open spec fn voided(h: HotkeyEdges, press_id: u64) -> HotkeyEdges {
    HotkeyEdges {
        press_began_session: if h.press_began_session == press_id {
            0
        } else {
            h.press_began_session
        },
        ..let_go(h)
    }
}

/// Another key that is added to the press takes it back: the press is the latest one, and the user
/// does not speak yet.
pub open spec fn takes_back(c: Coordinator, press_id: u64) -> bool {
    &&& press_id != 0
    &&& c.hotkey.press_generation == press_id
    &&& c.state.phase != SessionPhase::Listening
}

/// What letting go of the dictation key comes to.
#[derive(Clone, Copy, PartialEq, Eq, Structural, Debug)]
pub enum ReleaseDecision {
    Nothing,
    End,
    StopQueued,
}

/// The key was held long enough to count as held.
pub open spec fn held_long(pressed_at: Option<u64>, released_at: u64) -> bool {
    pressed_at matches Some(at) && released_at - at >= AUTO_HOLD_THRESHOLD
}

/// What letting go comes to in each mode and phase.
pub open spec fn release_decision(
    mode: HotkeyMode,
    phase: SessionPhase,
    long: bool,
) -> ReleaseDecision {
    if mode == HotkeyMode::Hold || (mode == HotkeyMode::Auto && long) {
        match phase {
            SessionPhase::Listening => ReleaseDecision::End,
            SessionPhase::Starting => ReleaseDecision::StopQueued,
            _ => ReleaseDecision::Nothing,
        }
    } else {
        ReleaseDecision::Nothing
    }
}

/// The coordinator after a combination took its session back.
pub open spec fn after_combined_cancel(c: Coordinator, now: u64) -> Coordinator {
    let after = after_cancel(c, now);
    if cancellable(c.state.phase) {
        Coordinator {
            hotkey: HotkeyEdges { cooldown_until: None, last_dispatch_at: None, ..after.hotkey },
            ..after
        }
    } else {
        after
    }
}

/// How long to wait for another key to be added to a press, in milliseconds.
pub open spec fn grace_ms(modifier_only: bool) -> u64 {
    if modifier_only {
        COMBO_ARBITRATION_GRACE_MS
    } else {
        0
    }
}

/// A press begins a session: no other key was added to it, be it before the wait or at a second
/// look.
pub open spec fn begins_session(
    pending: Seq<u64>,
    press_id: u64,
    modifier_only: bool,
    seen: bool,
    seen_again: bool,
) -> bool {
    let looked = if modifier_only {
        asked(pending, press_id)
    } else {
        pending
    };
    let at_once = modifier_only && added(pending, press_id, seen);
    !at_once && !added(looked, press_id, seen_again)
}

/// The coordinator once it has taken note that the key was let go, before it acts on it.
pub open spec fn noted_release(c: Coordinator, mode: HotkeyMode) -> Coordinator {
    Coordinator {
        hotkey: HotkeyEdges {
            trigger_held: false,
            press_at: if mode == HotkeyMode::Auto {
                None
            } else {
                c.hotkey.press_at
            },
            ..c.hotkey
        },
        ..c
    }
}

/// The coordinator whose press, which has another key added to it, counts as let go.
pub open spec fn taken_back(c: Coordinator) -> Coordinator {
    Coordinator { hotkey: HotkeyEdges { trigger_held: false, press_at: None, ..c.hotkey }, ..c }
}

/// The coordinator whose latest press began no session.
pub open spec fn unbegun(c: Coordinator) -> Coordinator {
    Coordinator { hotkey: HotkeyEdges { press_began_session: 0, ..c.hotkey }, ..c }
}

/// The coordinator after another key was added to a press.
pub open spec fn after_combined(c: Coordinator, press_id: u64, now: u64) -> Coordinator {
    if !takes_back(c, press_id) {
        c
    } else if c.hotkey.press_began_session == press_id {
        after_combined_cancel(unbegun(taken_back(c)), now)
    } else {
        taken_back(c)
    }
}

/// What another key that is added to a press asks for.
pub open spec fn combined_asks(c: Coordinator, press_id: u64) -> Seq<EffectView> {
    if takes_back(c, press_id) && c.hotkey.press_began_session == press_id {
        cancel_asks(unbegun(taken_back(c)))
    } else {
        seq![]
    }
}

/// The coordinator after a second look at its latest press.
pub open spec fn settled(c: Coordinator, press_id: u64, combined: bool, now: u64) -> Coordinator {
    if combined {
        after_combined_cancel(Coordinator { hotkey: voided(c.hotkey, press_id), ..c }, now)
    } else if c.state.phase == SessionPhase::Idle && c.hotkey.press_began_session == press_id {
        unbegun(c)
    } else {
        c
    }
}

/// What a second look at the latest press asks for.
pub open spec fn settled_asks(c: Coordinator, press_id: u64, combined: bool) -> Seq<EffectView> {
    if combined {
        cancel_asks(Coordinator { hotkey: voided(c.hotkey, press_id), ..c })
    } else {
        seq![]
    }
}

impl Coordinator {
    /// Notes a stop that comes while the session starts, and stops the recorder already.
    pub fn request_stop_during_starting(&mut self, now: u64, out: &mut Vec<Effect>)
        ensures
            *final(self) == after_stop_request(*old(self)),
            effects(final(out)@) == effects(old(out)@) + stop_request_asks(*old(self), now),
    {
        if !request_stop_during_starting_state(&mut self.state) {
            assert(effects(out@) =~= effects(old(out)@) + stop_request_asks(*old(self), now));
            return;
        }
        stop_recorder_if_pending_start_stop(&self.state, &mut self.recorder, now, out);
    }

    /// The dictation key went down. A key that is held gives no second press, and presses that
    /// follow each other too fast count as one.
    pub fn handle_pressed_edge(
        &mut self,
        mode: HotkeyMode,
        press_id: u64,
        pressed_at: u64,
        now: u64,
        out: &mut Vec<Effect>,
    ) -> (r: PressDecision)
        ensures
            ({
                let noted = noted_press(*old(self), press_id, now);
                if old(self).hotkey.trigger_held || too_soon(*old(self), now) {
                    &&& r == PressDecision::Ignored
                    &&& *final(self) == noted
                    &&& effects(final(out)@) == effects(old(out)@)
                } else {
                    &&& r == press_decision(mode, noted.state.phase, cooling_down(noted, now))
                    &&& *final(self) == after_pressed(noted, mode, pressed_at, now)
                    &&& effects(final(out)@) == effects(old(out)@) + pressed_asks(noted, mode, now)
                }
            }),
    {
        if self.hotkey.trigger_held {
            return PressDecision::Ignored;
        }
        self.hotkey.trigger_held = true;
        self.hotkey.press_generation = press_id;
        self.hotkey.press_began_session = 0;
        let fast = match self.hotkey.last_dispatch_at {
            Some(t) => now < t || now - t < HOTKEY_DEBOUNCE,
            None => false,
        };
        if fast {
            return PressDecision::Ignored;
        }
        self.hotkey.last_dispatch_at = Some(now);
        self.handle_pressed(mode, pressed_at, now, out)
    }

    /// A press of the dictation key that counts.
    pub fn handle_pressed(
        &mut self,
        mode: HotkeyMode,
        pressed_at: u64,
        now: u64,
        out: &mut Vec<Effect>,
    ) -> (r: PressDecision)
        ensures
            r == press_decision(mode, old(self).state.phase, cooling_down(*old(self), now)),
            *final(self) == after_pressed(*old(self), mode, pressed_at, now),
            effects(final(out)@) == effects(old(out)@) + pressed_asks(*old(self), mode, now),
    {
        assert(effects(old(out)@) =~= effects(old(out)@) + Seq::<EffectView>::empty());
        match self.state.phase {
            SessionPhase::Idle => {
                if mode != HotkeyMode::Hold {
                    let cooling = match self.hotkey.cooldown_until {
                        Some(deadline) => now < deadline,
                        None => false,
                    };
                    if cooling {
                        return PressDecision::Ignored;
                    }
                }
                if mode == HotkeyMode::Auto {
                    self.hotkey.press_at = Some(pressed_at);
                }
                PressDecision::Begin
            },
            SessionPhase::Listening => {
                if mode == HotkeyMode::Hold {
                    PressDecision::Ignored
                } else {
                    PressDecision::End
                }
            },
            SessionPhase::Starting => {
                if mode == HotkeyMode::Hold {
                    PressDecision::Ignored
                } else {
                    self.request_stop_during_starting(now, out);
                    PressDecision::StopQueued
                }
            },
            _ => PressDecision::Ignored,
        }
    }

    /// Whether another key was added to the press. `monitor_seen` is what the key monitor says of
    /// it. A press that was remembered is forgotten by asking.
    pub fn combo_seen_for_press(&mut self, press_id: u64, monitor_seen: bool) -> (r: bool)
        ensures
            r == added(
                old(self).hotkey.combo_pending_presses@,
                press_id,
                monitor_seen,
            ),
            final(self).hotkey.combo_pending_presses@ == asked(
                old(self).hotkey.combo_pending_presses@,
                press_id,
            ),
            *final(self) == (Coordinator {
                hotkey: HotkeyEdges {
                    combo_pending_presses: final(self).hotkey.combo_pending_presses,
                    ..old(self).hotkey
                },
                ..*old(self)
            }),
    {
        if press_id == 0 {
            return false;
        }
        let ghost before = self.hotkey.combo_pending_presses@;
        let n: usize = self.hotkey.combo_pending_presses.len();
        let mut i: usize = 0;
        while i < n && self.hotkey.combo_pending_presses[i] != press_id
            invariant
                i <= n,
                n == before.len(),
                *self == *old(self),
                before == self.hotkey.combo_pending_presses@,
                forall|j: int| 0 <= j < i ==> #[trigger] before[j] != press_id,
            decreases n - i,
        {
            i += 1;
        }
        proof {
            before.index_of_first_ensures(press_id);
            if i < n {
                assert(before[i as int] == press_id);
                assert(before.contains(press_id));
                let k = before.index_of_first(press_id)->0;
                assert(k == i);
            } else {
                assert(!before.contains(press_id));
            }
        }
        if i < n {
            self.hotkey.combo_pending_presses.remove(i);
            true
        } else {
            monitor_seen
        }
    }

    /// How long to wait, before a session begins, for another key to be added to the press. Only a
    /// modifier alone leaves that open.
    pub fn arbitration_grace_ms(modifier_only: bool) -> (r: u64)
        ensures
            r == grace_ms(modifier_only),
    {
        if modifier_only {
            COMBO_ARBITRATION_GRACE_MS
        } else {
            0
        }
    }

    /// Whether a press, after the wait, is part of a combination.
    pub fn press_resolves_to_combo(
        &mut self,
        press_id: u64,
        modifier_only: bool,
        monitor_seen: bool,
    ) -> (r: bool)
        ensures
            r == (modifier_only && added(
                old(self).hotkey.combo_pending_presses@,
                press_id,
                monitor_seen,
            )),
            final(self).hotkey.combo_pending_presses@ == if modifier_only {
                asked(old(self).hotkey.combo_pending_presses@, press_id)
            } else {
                old(self).hotkey.combo_pending_presses@
            },
            *final(self) == (Coordinator {
                hotkey: HotkeyEdges {
                    combo_pending_presses: final(self).hotkey.combo_pending_presses,
                    ..old(self).hotkey
                },
                ..*old(self)
            }),
    {
        if !modifier_only {
            return false;
        }
        self.combo_seen_for_press(press_id, monitor_seen)
    }

    /// The press does not count: letting go of it will not either, and the next press may follow
    /// at once.
    fn void_press(&mut self)
        ensures
            *final(self) == (Coordinator { hotkey: let_go(old(self).hotkey), ..*old(self) }),
    {
        self.hotkey.trigger_held = false;
        self.hotkey.press_at = None;
        self.hotkey.last_dispatch_at = None;
    }

    /// A press that is to begin a session, after the wait. The result tells whether it does: not
    /// where another key was added, whether that shows at once or at a second look.
    pub fn begin_session_from_press(
        &mut self,
        press_id: u64,
        modifier_only: bool,
        monitor_seen: bool,
        monitor_seen_again: bool,
    ) -> (r: bool)
        ensures
            ({
                let pending = old(self).hotkey.combo_pending_presses@;
                let looked = if modifier_only {
                    asked(pending, press_id)
                } else {
                    pending
                };
                let at_once = modifier_only && added(pending, press_id, monitor_seen);
                let again = !at_once && added(looked, press_id, monitor_seen_again);
                &&& r == begins_session(
                    pending,
                    press_id,
                    modifier_only,
                    monitor_seen,
                    monitor_seen_again,
                )
                &&& final(self).hotkey.combo_pending_presses@ == if at_once {
                    looked
                } else {
                    asked(looked, press_id)
                }
                &&& *final(self) == (Coordinator {
                    hotkey: HotkeyEdges {
                        combo_pending_presses: final(self).hotkey.combo_pending_presses,
                        press_began_session: if at_once {
                            old(self).hotkey.press_began_session
                        } else if again {
                            0
                        } else {
                            press_id
                        },
                        ..if r {
                            old(self).hotkey
                        } else {
                            let_go(old(self).hotkey)
                        }
                    },
                    ..*old(self)
                })
            }),
    {
        if self.press_resolves_to_combo(press_id, modifier_only, monitor_seen) {
            self.void_press();
            return false;
        }
        self.hotkey.press_began_session = press_id;
        if self.combo_seen_for_press(press_id, monitor_seen_again) {
            self.hotkey.press_began_session = 0;
            self.void_press();
            return false;
        }
        true
    }

    /// Looks once more at a press that has begun a session: a combination that showed only
    /// meanwhile takes the session back.
    pub fn settle_press(
        &mut self,
        press_id: u64,
        monitor_seen: bool,
        now: u64,
        out: &mut Vec<Effect>,
    )
        requires
            clock_has_room(now),
        ensures
            old(self).hotkey.press_generation != press_id ==> {
                &&& *final(self) == *old(self)
                &&& effects(final(out)@) == effects(old(out)@)
            },
            old(self).hotkey.press_generation == press_id ==> {
                let h = HotkeyEdges {
                    combo_pending_presses: final(self).hotkey.combo_pending_presses,
                    ..old(self).hotkey
                };
                let c = Coordinator { hotkey: h, ..*old(self) };
                let combined = added(
                    old(self).hotkey.combo_pending_presses@,
                    press_id,
                    monitor_seen,
                );
                &&& final(self).hotkey.combo_pending_presses@ == asked(
                    old(self).hotkey.combo_pending_presses@,
                    press_id,
                )
                &&& *final(self) == settled(c, press_id, combined, now)
                &&& effects(final(out)@) == effects(old(out)@) + settled_asks(c, press_id, combined)
            },
    {
        if self.hotkey.press_generation != press_id {
            return;
        }
        if self.combo_seen_for_press(press_id, monitor_seen) {
            self.void_press();
            if self.hotkey.press_began_session == press_id {
                self.hotkey.press_began_session = 0;
            }
            self.cancel_combined_session_if_active(now, out);
            return;
        }
        if self.state.phase == SessionPhase::Idle && self.hotkey.press_began_session == press_id {
            self.hotkey.press_began_session = 0;
        }
    }

    /// Cancels the session that a combination began. That is no use of dictation, so the next press
    /// may follow at once.
    fn cancel_combined_session_if_active(&mut self, now: u64, out: &mut Vec<Effect>)
        requires
            clock_has_room(now),
        ensures
            *final(self) == after_combined_cancel(*old(self), now),
            effects(final(out)@) == effects(old(out)@) + cancel_asks(*old(self)),
    {
        if !self.cancel_session(now, out) {
            return;
        }
        self.hotkey.cooldown_until = None;
        self.hotkey.last_dispatch_at = None;
    }

    /// Remembers a press to which another key was added.
    fn remember_combined(&mut self, press_id: u64)
        ensures
            final(self).hotkey.combo_pending_presses@ == remembered(
                old(self).hotkey.combo_pending_presses@,
                press_id,
            ),
            *final(self) == (Coordinator {
                hotkey: HotkeyEdges {
                    combo_pending_presses: final(self).hotkey.combo_pending_presses,
                    ..old(self).hotkey
                },
                ..*old(self)
            }),
    {
        let n: usize = self.hotkey.combo_pending_presses.len();
        let mut known = false;
        let mut i: usize = 0;
        while i < n
            invariant
                i <= n,
                n == self.hotkey.combo_pending_presses@.len(),
                *self == *old(self),
                known <==> exists|j: int|
                    0 <= j < i && #[trigger] self.hotkey.combo_pending_presses@[j] == press_id,
            decreases n - i,
        {
            if self.hotkey.combo_pending_presses[i] == press_id {
                known = true;
            }
            i += 1;
        }
        if !known {
            self.hotkey.combo_pending_presses.push(press_id);
            if self.hotkey.combo_pending_presses.len() > MAX_PENDING_COMBO_PRESSES {
                let ghost pushed = self.hotkey.combo_pending_presses@;
                self.hotkey.combo_pending_presses.remove(0);
                assert(self.hotkey.combo_pending_presses@ =~= pushed.skip(1));
            }
        }
        assert(self.hotkey.combo_pending_presses@ == remembered(
            old(self).hotkey.combo_pending_presses@,
            press_id,
        ));
    }

    /// Another key was added to a press. It is remembered; where the press is the latest one and
    /// the user does not speak yet, the press does not count, and the session that it began is
    /// cancelled.
    pub fn handle_trigger_combined(&mut self, press_id: u64, now: u64, out: &mut Vec<Effect>)
        requires
            clock_has_room(now),
        ensures
            press_id == 0 ==> {
                &&& *final(self) == *old(self)
                &&& effects(final(out)@) == effects(old(out)@)
            },
            press_id != 0 ==> {
                let h = HotkeyEdges {
                    combo_pending_presses: final(self).hotkey.combo_pending_presses,
                    ..old(self).hotkey
                };
                let c = Coordinator { hotkey: h, ..*old(self) };
                &&& final(self).hotkey.combo_pending_presses@ == remembered(
                    old(self).hotkey.combo_pending_presses@,
                    press_id,
                )
                &&& *final(self) == after_combined(c, press_id, now)
                &&& effects(final(out)@) == effects(old(out)@) + combined_asks(c, press_id)
            },
    {
        if press_id == 0 {
            return;
        }
        self.remember_combined(press_id);
        let ghost c = *self;
        assert(effects(out@) + Seq::<EffectView>::empty() =~= effects(out@));
        if self.hotkey.press_generation != press_id {
            return;
        }
        if self.state.phase == SessionPhase::Listening {
            return;
        }
        self.hotkey.trigger_held = false;
        self.hotkey.press_at = None;
        assert(*self == taken_back(c));
        if self.hotkey.press_began_session != press_id {
            return;
        }
        self.hotkey.press_began_session = 0;
        assert(*self == unbegun(taken_back(c)));
        self.cancel_combined_session_if_active(now, out);
        assert(self.hotkey.combo_pending_presses == c.hotkey.combo_pending_presses);
    }

    /// The dictation key was let go.
    pub fn handle_released_edge(
        &mut self,
        mode: HotkeyMode,
        released_at: u64,
        now: u64,
        out: &mut Vec<Effect>,
    ) -> (r: ReleaseDecision)
        ensures
            !old(self).hotkey.trigger_held ==> {
                &&& r == ReleaseDecision::Nothing
                &&& *final(self) == *old(self)
                &&& effects(final(out)@) == effects(old(out)@)
            },
            old(self).hotkey.trigger_held ==> {
                let c = noted_release(*old(self), mode);
                &&& r == release_decision(
                    mode,
                    old(self).state.phase,
                    held_long(old(self).hotkey.press_at, released_at),
                )
                &&& if r == ReleaseDecision::StopQueued {
                    &&& *final(self) == after_stop_request(c)
                    &&& effects(final(out)@) == effects(old(out)@) + stop_request_asks(c, now)
                } else {
                    &&& *final(self) == c
                    &&& effects(final(out)@) == effects(old(out)@)
                }
            },
    {
        if !self.hotkey.trigger_held {
            return ReleaseDecision::Nothing;
        }
        self.hotkey.trigger_held = false;
        if mode == HotkeyMode::Toggle {
            return ReleaseDecision::Nothing;
        }
        if mode == HotkeyMode::Auto {
            let long = match self.hotkey.press_at {
                Some(at) => released_at >= at && released_at - at >= AUTO_HOLD_THRESHOLD,
                None => false,
            };
            self.hotkey.press_at = None;
            if !long {
                return ReleaseDecision::Nothing;
            }
        }
        match self.state.phase {
            SessionPhase::Listening => ReleaseDecision::End,
            SessionPhase::Starting => {
                self.request_stop_during_starting(now, out);
                ReleaseDecision::StopQueued
            },
            _ => ReleaseDecision::Nothing,
        }
    }
}

proof fn lemma_asked(pending: Seq<u64>, press_id: u64)
    requires
        pending.no_duplicates(),
    ensures
        !asked(pending, press_id).contains(press_id) || press_id == 0,
        asked(asked(pending, press_id), press_id) == asked(pending, press_id),
        asked(pending, press_id).no_duplicates(),
        asked(pending, press_id).len() <= pending.len(),
{
    if press_id != 0 {
        pending.index_of_first_ensures(press_id);
        let after = asked(pending, press_id);
        if pending.contains(press_id) {
            let i = pending.index_of_first(press_id)->0;
            assert(after == pending.remove(i));
            assert forall|j: int| 0 <= j < after.len() implies after[j] != press_id by {
                if j < i {
                    assert(after[j] == pending[j]);
                } else {
                    assert(after[j] == pending[j + 1]);
                }
            }
        }
        assert(!after.contains(press_id));
        after.index_of_first_ensures(press_id);
    }
}

/// However many presses come with another key, and whichever are asked for, no press is remembered
/// twice and never more than the limit; a new one is always among them.
pub proof fn law_remembered_presses_are_bounded(pending: Seq<u64>, press_id: u64)
    requires
        bounded(pending),
    ensures
        bounded(remembered(pending, press_id)),
        remembered(pending, press_id).contains(press_id),
        bounded(asked(pending, press_id)),
{
    lemma_asked(pending, press_id);
    let pushed = pending.push(press_id);
    if !pending.contains(press_id) {
        assert(pushed.last() == press_id);
        if pending.len() >= MAX_PENDING_COMBO_PRESSES {
            let kept = pushed.skip(1);
            assert(kept.last() == press_id);
            assert(kept[kept.len() - 1] == press_id);
            assert forall|i: int, j: int| 0 <= i < j < kept.len() implies kept[i] != kept[j] by {
                assert(kept[i] == pushed[i + 1]);
                assert(kept[j] == pushed[j + 1]);
            }
        } else {
            assert(pushed[pushed.len() - 1] == press_id);
        }
    }
}

/// While the user speaks, another key that is added to the dictation key takes nothing back, and
/// letting go of the key ends the session as ever: at once where it is held to speak, after a long
/// press where a short one latches, and not at all where presses toggle.
pub proof fn law_speaking_is_not_cut_off(c: Coordinator, press_id: u64)
    requires
        c.state.phase == SessionPhase::Listening,
    ensures
        !takes_back(c, press_id),
        forall|long: bool| #[trigger]
            release_decision(HotkeyMode::Hold, c.state.phase, long) == ReleaseDecision::End,
        release_decision(HotkeyMode::Auto, c.state.phase, true) == ReleaseDecision::End,
        release_decision(HotkeyMode::Auto, c.state.phase, false) == ReleaseDecision::Nothing,
        forall|long: bool| #[trigger]
            release_decision(HotkeyMode::Toggle, c.state.phase, long) == ReleaseDecision::Nothing,
{
}

/// Where the key is held to speak, pressing it begins a session and letting it go ends it: a session
/// that listens at once, and one that is still starting as soon as it has started. Holding it down
/// changes nothing in between.
pub proof fn law_session_lasts_as_long_as_the_key_is_held(c: Coordinator, cooling: bool, long: bool)
    ensures
        press_decision(HotkeyMode::Hold, SessionPhase::Idle, cooling) == PressDecision::Begin,
        press_decision(HotkeyMode::Hold, SessionPhase::Starting, cooling) == PressDecision::Ignored,
        press_decision(HotkeyMode::Hold, SessionPhase::Listening, cooling)
            == PressDecision::Ignored,
        release_decision(HotkeyMode::Hold, SessionPhase::Listening, long) == ReleaseDecision::End,
        release_decision(HotkeyMode::Hold, SessionPhase::Starting, long)
            == ReleaseDecision::StopQueued,
        c.state.phase == SessionPhase::Starting ==> after_stop_request(c).state.pending_stop,
{
}

/// While text is being inserted or recognised, no press begins a session.
pub proof fn law_press_waits_for_the_end(mode: HotkeyMode, phase: SessionPhase, cooling: bool)
    requires
        phase == SessionPhase::Processing || phase == SessionPhase::Inserting,
    ensures
        press_decision(mode, phase, cooling) == PressDecision::Ignored,
{
}

/// The press counts: the key was up before, and a quarter of a second has gone by since the last
/// press that counted.
pub open spec fn press_counts(c: Coordinator, now: u64) -> bool {
    &&& !c.hotkey.trigger_held
    &&& c.hotkey.last_dispatch_at matches Some(t) ==> t + 250_000_000 <= now
}

/// Where presses toggle, and where a short press latches, the next press that counts stops the
/// session: one that listens ends, and one that is still starting ends as soon as it has started.
pub proof fn law_next_press_stops_the_session(
    c: Coordinator,
    mode: HotkeyMode,
    press_id: u64,
    pressed_at: u64,
    now: u64,
)
    requires
        mode == HotkeyMode::Toggle || mode == HotkeyMode::Auto,
        press_counts(c, now),
    ensures
        ({
            let noted = noted_press(c, press_id, now);
            let decision = press_decision(mode, noted.state.phase, cooling_down(noted, now));
            let after = after_pressed(noted, mode, pressed_at, now);
            &&& !too_soon(c, now)
            &&& noted.state == c.state
            &&& noted.hotkey.trigger_held
            &&& c.state.phase == SessionPhase::Listening ==> decision == PressDecision::End
                && after.state == c.state
            &&& c.state.phase == SessionPhase::Starting ==> {
                &&& decision == PressDecision::StopQueued
                &&& after.state.phase == SessionPhase::Starting
                &&& after.state.pending_stop
                &&& after.state.session_id == c.state.session_id
                &&& after.state.cancelled == c.state.cancelled
            }
        }),
{
}

/// In every mode a press that counts begins a session where none is under way. Only where presses
/// toggle or latch does it wait until the last session has cooled down.
pub proof fn law_press_begins_a_session(
    c: Coordinator,
    mode: HotkeyMode,
    press_id: u64,
    pressed_at: u64,
    now: u64,
)
    requires
        press_counts(c, now),
        c.state.phase == SessionPhase::Idle,
    ensures
        ({
            let noted = noted_press(c, press_id, now);
            let decision = press_decision(mode, noted.state.phase, cooling_down(noted, now));
            let waits = c.hotkey.cooldown_until matches Some(until) && now < until;
            let after = after_pressed(noted, mode, pressed_at, now);
            &&& !too_soon(c, now)
            &&& decision == PressDecision::Begin <==> mode == HotkeyMode::Hold || !waits
            &&& decision != PressDecision::Begin ==> decision == PressDecision::Ignored
            &&& mode == HotkeyMode::Auto && !waits ==> after.hotkey.press_at == Some(pressed_at)
            &&& after.hotkey.last_dispatch_at == Some(now)
            &&& after.hotkey.press_generation == press_id
            &&& after.hotkey.press_began_session == 0
            &&& after.hotkey.trigger_held
        }),
{
}

/// A press that comes while the key is held, or within a quarter of a second of the last one,
/// does nothing to the session.
pub proof fn law_bounced_press_does_nothing(c: Coordinator, press_id: u64, now: u64)
    ensures
        noted_press(c, press_id, now).state == c.state,
        c.hotkey.trigger_held ==> noted_press(c, press_id, now) == c,
        !c.hotkey.trigger_held ==> (too_soon(c, now) <==> !press_counts(c, now)),
        too_soon(c, now) ==> noted_press(c, press_id, now).hotkey.last_dispatch_at
            == c.hotkey.last_dispatch_at,
{
}

/// A key that was held for 350 milliseconds or longer was held to speak, so letting it go stops the
/// session; a shorter press latches it. A press whose beginning is not known is short.
pub proof fn law_short_press_latches(pressed_at: Option<u64>, released_at: u64, phase: SessionPhase)
    ensures
        held_long(pressed_at, released_at) <==> pressed_at is Some && pressed_at->0 + 350_000_000
            <= released_at,
        !held_long(pressed_at, released_at) ==> release_decision(
            HotkeyMode::Auto,
            phase,
            held_long(pressed_at, released_at),
        ) == ReleaseDecision::Nothing,
        held_long(pressed_at, released_at) && phase == SessionPhase::Listening ==> release_decision(
            HotkeyMode::Auto,
            phase,
            true,
        ) == ReleaseDecision::End,
        held_long(pressed_at, released_at) && phase == SessionPhase::Starting ==> release_decision(
            HotkeyMode::Auto,
            phase,
            true,
        ) == ReleaseDecision::StopQueued,
        release_decision(HotkeyMode::Toggle, phase, true) == ReleaseDecision::Nothing,
        release_decision(HotkeyMode::Toggle, phase, false) == ReleaseDecision::Nothing,
        phase != SessionPhase::Listening && phase != SessionPhase::Starting ==> forall|
            mode: HotkeyMode,
            long: bool,
        | #[trigger] release_decision(mode, phase, long) == ReleaseDecision::Nothing,
{
}

/// A modifier alone is given 150 milliseconds to become part of a combination; any other key begins
/// at once.
pub proof fn law_modifier_alone_waits(modifier_only: bool)
    ensures
        grace_ms(modifier_only) == 150 <==> modifier_only,
        grace_ms(modifier_only) == 0 <==> !modifier_only,
{
}

/// A press begins a session exactly where no other key was added to it: none is remembered, the
/// monitor saw none before the wait where the key is a modifier alone, and none at the second look.
/// A press without a number always begins one.
pub proof fn law_combination_begins_no_session(
    pending: Seq<u64>,
    press_id: u64,
    modifier_only: bool,
    seen: bool,
    seen_again: bool,
)
    ensures
        begins_session(pending, press_id, modifier_only, seen, seen_again) <==> press_id == 0 || (
        !pending.contains(press_id) && !(modifier_only && seen) && !seen_again),
{
    if !pending.contains(press_id) {
        assert(pending.remove_value(press_id) == pending) by {
            assert(pending.index_of_first(press_id) is None) by {
                pending.index_of_first_ensures(press_id);
            }
        }
    }
}

/// Letting go of the key is noted whatever it comes to: the key is up, and where a short press
/// latches, the time of the press is used up. The session is as it was.
pub proof fn law_release_is_noted(c: Coordinator, mode: HotkeyMode)
    ensures
        !noted_release(c, mode).hotkey.trigger_held,
        mode == HotkeyMode::Auto ==> noted_release(c, mode).hotkey.press_at is None,
        mode != HotkeyMode::Auto ==> noted_release(c, mode).hotkey.press_at == c.hotkey.press_at,
        noted_release(c, mode).hotkey.last_dispatch_at == c.hotkey.last_dispatch_at,
        noted_release(c, mode).hotkey.cooldown_until == c.hotkey.cooldown_until,
        noted_release(c, mode).hotkey.press_began_session == c.hotkey.press_began_session,
        noted_release(c, mode).state == c.state,
{
}

/// Another key that is added to the latest press before the user speaks takes the press back: the
/// key counts as up, and a session that the press began is cancelled without a cooldown, so that the
/// next press may follow at once. A session that another press began goes on, and an older press
/// changes nothing.
pub proof fn law_combination_takes_its_session_back(c: Coordinator, press_id: u64, now: u64)
    requires
        press_id != 0,
        clock_has_room(now),
    ensures
        ({
            let after = after_combined(c, press_id, now);
            let latest = c.hotkey.press_generation == press_id && c.state.phase
                != SessionPhase::Listening;
            &&& !latest ==> after == c && combined_asks(c, press_id).len() == 0
            &&& latest ==> !after.hotkey.trigger_held && after.hotkey.press_at is None
            &&& latest && c.hotkey.press_began_session != press_id ==> after.state == c.state
                && combined_asks(c, press_id).len() == 0
            &&& latest && c.hotkey.press_began_session == press_id ==> {
                &&& after.hotkey.press_began_session == 0
                &&& c.state.phase == SessionPhase::Starting ==> {
                    &&& after.state.phase == SessionPhase::Idle
                    &&& after.state.cancelled
                    &&& after.hotkey.cooldown_until is None
                    &&& after.hotkey.last_dispatch_at is None
                    &&& combined_asks(c, press_id).len() > 0
                }
            }
        }),
{
}

/// A combination that shows only after its press has begun a session takes that session back too,
/// also one that listens already. Else the press is settled: one that has come to nothing is
/// forgotten, and a session that goes on is left alone.
pub proof fn law_late_combination_takes_its_session_back(
    c: Coordinator,
    press_id: u64,
    now: u64,
)
    requires
        clock_has_room(now),
    ensures
        ({
            let after = settled(c, press_id, true, now);
            &&& !after.hotkey.trigger_held
            &&& after.hotkey.press_at is None
            &&& c.hotkey.press_began_session == press_id ==> after.hotkey.press_began_session == 0
            &&& c.state.phase == SessionPhase::Starting || c.state.phase == SessionPhase::Listening
                ==> {
                &&& after.state.phase == SessionPhase::Idle
                &&& after.state.cancelled
                &&& after.hotkey.cooldown_until is None
                &&& after.hotkey.last_dispatch_at is None
                &&& settled_asks(c, press_id, true).len() > 0
            }
        }),
        ({
            let after = settled(c, press_id, false, now);
            &&& after.state == c.state
            &&& after.hotkey.trigger_held == c.hotkey.trigger_held
            &&& settled_asks(c, press_id, false).len() == 0
            &&& c.state.phase == SessionPhase::Idle && c.hotkey.press_began_session == press_id
                ==> after.hotkey.press_began_session == 0
            &&& c.state.phase != SessionPhase::Idle ==> after == c
        }),
{
}

/// Only a press that queues a stop asks for anything: a recorder that runs already is stopped at
/// once.
pub proof fn law_only_a_queued_stop_asks(c: Coordinator, mode: HotkeyMode, now: u64)
    ensures
        c.state.phase != SessionPhase::Starting ==> pressed_asks(c, mode, now).len() == 0
            && stop_request_asks(c, now).len() == 0,
        mode == HotkeyMode::Hold ==> pressed_asks(c, mode, now).len() == 0,
        mode != HotkeyMode::Hold && c.state.phase == SessionPhase::Starting ==> pressed_asks(
            c,
            mode,
            now,
        ) == stop_request_asks(c, now),
        added(seq![], 0, true) == false,
{
}

/// A stop that comes while the session starts stops its recorder already, where that runs, and shows
/// that the text is being recognised; the session itself ends once it has started.
pub proof fn law_queued_stop_stops_the_recorder(c: Coordinator, now: u64)
    requires
        c.state.phase == SessionPhase::Starting,
    ensures
        ({
            let own = c.recorder is Some && c.recorder->0.session_id == c.state.session_id;
            let asks = stop_request_asks(c, now);
            let after = after_stop_request(c);
            &&& after.state.pending_stop
            &&& own ==> {
                &&& after.recorder is None
                &&& asks.len() == 3
                &&& asks[0] == EffectView::StopRecorder { session: c.state.session_id }
                &&& asks[1] == EffectView::ReleaseMute
                &&& asks[2] matches EffectView::Capsule {
                    state,
                    phase,
                    elapsed_ms,
                    message,
                    inserted_chars,
                }
                &&& state == CapsuleState::Transcribing
                &&& phase == SessionPhase::Starting
                &&& c.state.started_at <= now ==> elapsed_ms == (now - c.state.started_at)
                    / 1_000_000
                &&& message is None
                &&& inserted_chars is None
            }
            &&& !own ==> after.recorder == c.recorder && asks.len() == 0
        }),
{
}

/// A press that does not count leaves the key up and the way free for the next one; that it began a
/// session is forgotten, of this press and of no other.
pub proof fn law_void_press_is_forgotten(h: HotkeyEdges, press_id: u64)
    ensures
        ({
            let after = voided(h, press_id);
            &&& !after.trigger_held
            &&& after.press_at is None
            &&& after.last_dispatch_at is None
            &&& h.press_began_session == press_id ==> after.press_began_session == 0
            &&& h.press_began_session != press_id ==> after.press_began_session
                == h.press_began_session
            &&& after.press_generation == h.press_generation
            &&& after.combo_pending_presses == h.combo_pending_presses
            &&& after.cooldown_until == h.cooldown_until
        }),
{
}

/// Another key was added to a press where that is remembered or the monitor says so; a press without
/// a number has none.
pub proof fn law_added_key_is_known(pending: Seq<u64>, press_id: u64, seen: bool)
    ensures
        !added(pending, 0, seen),
        press_id != 0 && seen ==> added(pending, press_id, seen),
        press_id != 0 && pending.contains(press_id) ==> added(pending, press_id, seen),
        !pending.contains(press_id) && !seen ==> !added(pending, press_id, seen),
        MAX_PENDING_COMBO_PRESSES == 64,
{
}

} // verus!
