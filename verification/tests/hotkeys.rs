use zhunji::coordinator::capsule_focus::{
    esc_exclusive_for_capsule, front_app_label, CapsuleDisplay,
};
use zhunji::coordinator::hotkey_loops::{
    action_supervisor_step, combo_supervisor_step, dictation_binding, handle_window_hotkey_event,
    hotkey_install_outcome, hotkey_supervisor_step, is_builtin_translation_shift,
    is_modifier_only_shortcut, is_unconfigured_shortcut, logs_attempt, modifier_shortcut_trigger,
    reset_shortcut_held_state, translation_supervisor_step, try_update_translation_hotkey_binding,
    update_action_hotkey_binding, update_combo_hotkey_binding, update_dictation_hotkey_binding,
    update_hotkey_binding, window_hotkey_fallback_enabled, window_key_matches_trigger, ComboPlan,
    DictationBinding, HotkeyCapability, HotkeyInstallError, HotkeyStatusState, MonitorAction,
    MonitorPlan, SuperviseStep, WindowHotkeyStep,
};
use zhunji::coordinator::inner::{Coordinator, POST_SESSION_COOLDOWN};
use zhunji::coordinator::press::{PressDecision, ReleaseDecision, COMBO_ARBITRATION_GRACE_MS};
use zhunji::coordinator::resources::Effect;
use zhunji::coordinator_state::{SessionId, SessionPhase};
use zhunji::types::{CapsuleState, HotkeyMode, HotkeyTrigger, Platform, ShortcutBinding};

const MS: u64 = 1_000_000;

fn session_id(n: u128) -> SessionId {
    SessionId::from_u128(n)
}

fn binding(primary: &str, modifiers: &[&str]) -> ShortcutBinding {
    ShortcutBinding {
        primary: primary.to_string(),
        modifiers: modifiers.iter().map(|m| m.to_string()).collect(),
    }
}

#[test]
fn window_key_matcher_mirrors_windows_trigger_aliases() {
    let cases = [
        (HotkeyTrigger::RightControl, "Control", "ControlRight"),
        (HotkeyTrigger::LeftControl, "Control", "ControlLeft"),
        (HotkeyTrigger::RightOption, "Alt", "AltRight"),
        (HotkeyTrigger::RightAlt, "AltGraph", "AltRight"),
        (HotkeyTrigger::RightCommand, "Meta", "MetaRight"),
        (HotkeyTrigger::LeftOption, "Alt", "AltLeft"),
        (HotkeyTrigger::Fn, "Control", "ControlRight"),
    ];
    for (trigger, key, code) in cases {
        assert!(
            window_key_matches_trigger(trigger, key, code),
            "{trigger:?} should match {key}/{code}"
        );
    }

    assert!(!window_key_matches_trigger(HotkeyTrigger::RightControl, "Control", "ControlLeft"));
    assert!(!window_key_matches_trigger(HotkeyTrigger::LeftOption, "Alt", "AltRight"));
    assert!(!window_key_matches_trigger(HotkeyTrigger::Fn, "Fn", "Fn"));
}

#[test]
fn window_hotkey_fallback_is_disabled_when_no_explicit_fallback_is_advertised() {
    for explicit_fallback_available in [false, true] {
        let capability = HotkeyCapability { explicit_fallback_available };
        assert_eq!(
            window_hotkey_fallback_enabled(&capability),
            capability.explicit_fallback_available
        );
    }
}

#[test]
fn pressed_edge_during_inserting_does_not_start_new_session() {
    let mut c = Coordinator::new(0);
    c.state.phase = SessionPhase::Inserting;
    c.state.session_id = session_id(41);
    let mut out = Vec::new();

    let decision = c.handle_pressed_edge(HotkeyMode::Toggle, 1, 5 * MS, 5 * MS, &mut out);

    assert_eq!(decision, PressDecision::Ignored);
    assert_eq!(c.state.phase, SessionPhase::Inserting);
    assert_eq!(c.state.session_id, session_id(41));
}

#[test]
fn toggle_press_within_cooldown_is_dropped() {
    let mut c = Coordinator::new(0);
    let now: u64 = 10_000 * MS;
    c.hotkey.cooldown_until = Some(now + POST_SESSION_COOLDOWN);
    let mut out = Vec::new();

    let decision = c.handle_pressed_edge(HotkeyMode::Toggle, 1, now, now, &mut out);

    assert_eq!(decision, PressDecision::Ignored);
    assert_eq!(c.state.phase, SessionPhase::Idle);
}

#[test]
fn toggle_press_after_the_cooldown_begins() {
    let mut c = Coordinator::new(0);
    let now: u64 = 10_000 * MS;
    c.hotkey.cooldown_until = Some(now);
    let mut out = Vec::new();
    assert_eq!(
        c.handle_pressed_edge(HotkeyMode::Toggle, 1, now, now, &mut out),
        PressDecision::Begin
    );
    assert!(c.hotkey.trigger_held);
}

#[test]
fn presses_too_close_to_each_other_count_once() {
    let mut c = Coordinator::new(0);
    let mut out = Vec::new();
    let now: u64 = 10_000 * MS;
    c.hotkey.last_dispatch_at = Some(now - 100 * MS);
    assert_eq!(
        c.handle_pressed_edge(HotkeyMode::Toggle, 1, now, now, &mut out),
        PressDecision::Ignored
    );
    c.hotkey.trigger_held = false;
    c.hotkey.last_dispatch_at = Some(now - 250 * MS);
    assert_eq!(
        c.handle_pressed_edge(HotkeyMode::Toggle, 2, now, now, &mut out),
        PressDecision::Begin
    );
}

#[test]
fn repeated_pressed_edge_during_hold_session_does_not_restart() {
    let mut c = Coordinator::new(0);
    c.state.phase = SessionPhase::Listening;
    c.hotkey.trigger_held = true;
    let mut out = Vec::new();

    c.handle_pressed_edge(HotkeyMode::Hold, 1, MS, MS, &mut out);

    assert_eq!(c.state.phase, SessionPhase::Listening);
    assert!(c.hotkey.trigger_held);
}

#[test]
fn auto_short_tap_release_latches_recording() {
    let mut c = Coordinator::new(0);
    c.state.phase = SessionPhase::Listening;
    let pressed_at: u64 = 1_000 * MS;
    c.hotkey.press_at = Some(pressed_at);
    c.hotkey.trigger_held = true;
    let mut out = Vec::new();

    let decision = c.handle_released_edge(
        HotkeyMode::Auto,
        pressed_at + 100 * MS,
        pressed_at + 100 * MS,
        &mut out,
    );

    assert_eq!(decision, ReleaseDecision::Nothing);
    assert_eq!(c.state.phase, SessionPhase::Listening);
}

#[test]
fn auto_short_tap_stays_latched_when_bridge_handles_release_late() {
    let mut c = Coordinator::new(0);
    c.state.phase = SessionPhase::Listening;
    let pressed_at: u64 = 1_000 * MS;
    c.hotkey.press_at = Some(pressed_at);
    c.hotkey.trigger_held = true;
    let mut out = Vec::new();

    let decision = c.handle_released_edge(
        HotkeyMode::Auto,
        pressed_at + 100 * MS,
        pressed_at + 400 * MS,
        &mut out,
    );

    assert_eq!(decision, ReleaseDecision::Nothing);
    assert_eq!(c.state.phase, SessionPhase::Listening);
    assert!(c.hotkey.press_at.is_none());
}

#[test]
fn auto_long_hold_release_ends_session() {
    let mut c = Coordinator::new(0);
    c.state.phase = SessionPhase::Listening;
    let pressed_at: u64 = 1_000 * MS;
    c.hotkey.press_at = Some(pressed_at);
    c.hotkey.trigger_held = true;
    let mut out = Vec::new();
    let now: u64 = pressed_at + 500 * MS;

    assert_eq!(
        c.handle_released_edge(HotkeyMode::Auto, now, now, &mut out),
        ReleaseDecision::End
    );
    let end = c.end_session(now, &mut out).unwrap();
    assert!(c.recording_ended(end.session, &mut out).is_none());

    assert_eq!(c.state.phase, SessionPhase::Idle);
    assert!(c.hotkey.press_at.is_none());
}

#[test]
fn trigger_combined_cancels_session_started_by_this_press() {
    let mut c = Coordinator::new(0);
    c.state.phase = SessionPhase::Listening;
    let now: u64 = 10_000 * MS;
    c.hotkey.press_at = Some(now - 400 * MS);
    c.hotkey.trigger_held = true;
    c.hotkey.press_generation = 1;
    c.hotkey.press_began_session = 1;
    let mut out = Vec::new();

    c.handle_trigger_combined(1, now, &mut out);

    assert_eq!(c.state.phase, SessionPhase::Listening);
    assert!(c.hotkey.trigger_held);

    assert_eq!(
        c.handle_released_edge(HotkeyMode::Auto, now, now, &mut out),
        ReleaseDecision::End
    );
    let end = c.end_session(now, &mut out).unwrap();
    assert!(c.recording_ended(end.session, &mut out).is_none());

    assert_eq!(c.state.phase, SessionPhase::Idle);
}

#[test]
fn trigger_combined_leaves_session_it_did_not_start() {
    let mut c = Coordinator::new(0);
    c.state.phase = SessionPhase::Listening;
    c.hotkey.trigger_held = true;
    c.hotkey.press_generation = 1;
    c.hotkey.press_began_session = 0;
    let mut out = Vec::new();

    c.handle_trigger_combined(1, MS, &mut out);

    assert_eq!(c.state.phase, SessionPhase::Listening);
    assert!(c.hotkey.trigger_held);
}

#[test]
fn late_trigger_combined_does_not_clear_completed_session_guards() {
    let mut c = Coordinator::new(0);
    let now: u64 = 10_000 * MS;
    c.hotkey.cooldown_until = Some(now + 1_000 * MS);
    c.hotkey.last_dispatch_at = Some(now);
    c.hotkey.press_generation = 1;
    c.hotkey.press_began_session = 1;
    let mut out = Vec::new();

    c.handle_trigger_combined(1, now, &mut out);

    assert_eq!(c.state.phase, SessionPhase::Idle);
    assert!(c.hotkey.cooldown_until.is_some());
    assert!(c.hotkey.last_dispatch_at.is_some());
}

#[test]
fn trigger_combined_still_cancels_when_released_edge_wins_the_race() {
    let mut c = Coordinator::new(0);
    c.state.phase = SessionPhase::Listening;
    let pressed_at: u64 = 1_000 * MS;
    c.hotkey.press_at = Some(pressed_at);
    c.hotkey.trigger_held = true;
    c.hotkey.press_generation = 1;
    c.hotkey.press_began_session = 1;
    let mut out = Vec::new();

    c.handle_released_edge(
        HotkeyMode::Auto,
        pressed_at + 80 * MS,
        pressed_at + 80 * MS,
        &mut out,
    );
    assert_eq!(c.state.phase, SessionPhase::Listening);

    c.handle_trigger_combined(1, pressed_at + 90 * MS, &mut out);

    assert_eq!(c.state.phase, SessionPhase::Listening);
}

#[test]
fn combination_takes_back_a_session_that_has_not_started_to_listen() {
    let mut c = Coordinator::new(0);
    c.state.phase = SessionPhase::Starting;
    c.hotkey.trigger_held = true;
    c.hotkey.press_generation = 4;
    c.hotkey.press_began_session = 4;
    let mut out = Vec::new();

    c.handle_trigger_combined(4, MS, &mut out);

    assert_eq!(c.state.phase, SessionPhase::Idle);
    assert!(!c.hotkey.trigger_held);
}

#[test]
fn enabling_shortcut_recording_clears_dictation_hold_latch() {
    let mut c = Coordinator::new(0);
    c.hotkey.trigger_held = true;

    c.set_shortcut_recording_active(true);

    assert!(!c.hotkey.trigger_held);
}

#[test]
fn modifier_only_press_waits_out_the_arbitration_window() {
    let mut c = Coordinator::new(0);
    assert_eq!(Coordinator::arbitration_grace_ms(true), COMBO_ARBITRATION_GRACE_MS);
    assert_eq!(COMBO_ARBITRATION_GRACE_MS, 150);
    assert!(!c.press_resolves_to_combo(1, true, false));
}

#[test]
fn arbitration_combo_does_not_consume_debounce_window() {
    let mut c = Coordinator::new(0);
    c.hotkey.press_generation = 1;
    c.hotkey.combo_pending_presses.push(1);
    c.hotkey.last_dispatch_at = Some(MS);

    assert!(!c.begin_session_from_press(1, true, false, false));

    assert!(c.hotkey.last_dispatch_at.is_none());
    assert_eq!(c.state.phase, SessionPhase::Idle);
}

#[test]
fn custom_combo_press_skips_the_arbitration_window() {
    let mut c = Coordinator::new(0);
    assert_eq!(Coordinator::arbitration_grace_ms(false), 0);
    assert!(!c.press_resolves_to_combo(1, false, false));
    assert!(!c.combo_seen_for_press(0, false));
}

#[test]
fn pending_combo_queue_preserves_multiple_press_ids() {
    let mut c = Coordinator::new(0);
    c.hotkey.combo_pending_presses.push(11);
    c.hotkey.combo_pending_presses.push(12);

    assert!(c.combo_seen_for_press(11, false));
    assert!(c.combo_seen_for_press(12, false));
    assert!(!c.combo_seen_for_press(11, false));
}

#[test]
fn remembered_presses_are_bounded() {
    let mut c = Coordinator::new(0);
    let mut out = Vec::new();
    for press_id in 1..=100u64 {
        c.handle_trigger_combined(press_id, MS, &mut out);
    }
    assert!(c.hotkey.combo_pending_presses.len() <= 64);
}

fn processing() -> Coordinator {
    let mut c = Coordinator::new(0);
    c.state.phase = SessionPhase::Processing;
    c.state.cancelled = false;
    c
}

#[test]
fn esc_cancel_bridge_sets_cancelled_during_processing() {
    let mut c = processing();
    let mut out = Vec::new();

    assert!(c.on_esc(MS, &mut out));

    assert!(c.state.cancelled);
    assert_eq!(c.state.phase, SessionPhase::Processing);
}

#[test]
fn esc_cancel_bridge_skips_while_shortcut_recording_active() {
    let mut c = processing();
    let mut out = Vec::new();

    c.set_shortcut_recording_active(true);
    assert!(!c.on_esc(MS, &mut out));
    assert!(!c.state.cancelled);

    c.set_shortcut_recording_active(false);
    assert!(c.on_esc(MS, &mut out));
    assert!(c.state.cancelled);
}

#[test]
fn esc_cancel_bridge_is_idempotent_on_repeat_signals() {
    let mut c = processing();
    let mut out = Vec::new();

    for _ in 0..3 {
        c.on_esc(MS, &mut out);
    }
    assert!(c.state.cancelled);
    c.on_esc(MS, &mut out);
    assert_eq!(c.state.phase, SessionPhase::Processing);
}

#[test]
fn esc_exclusive_flag_matches_capsule_and_phase() {
    for (state, phase) in [
        (CapsuleState::Recording, SessionPhase::Listening),
        (CapsuleState::Transcribing, SessionPhase::Processing),
        (CapsuleState::Polishing, SessionPhase::Processing),
        (CapsuleState::Recording, SessionPhase::Inserting),
    ] {
        assert!(esc_exclusive_for_capsule(state, phase), "{state:?} @ {phase:?}");
    }

    for (state, phase) in [
        (CapsuleState::Done, SessionPhase::Idle),
        (CapsuleState::Cancelled, SessionPhase::Idle),
        (CapsuleState::Error, SessionPhase::Idle),
        (CapsuleState::Idle, SessionPhase::Idle),
    ] {
        assert!(!esc_exclusive_for_capsule(state, phase), "{state:?} @ {phase:?}");
    }

    for (state, phase) in [
        (CapsuleState::Recording, SessionPhase::Idle),
        (CapsuleState::Transcribing, SessionPhase::Idle),
        (CapsuleState::Polishing, SessionPhase::Idle),
    ] {
        assert!(!esc_exclusive_for_capsule(state, phase), "{state:?} @ {phase:?}");
    }
}

#[test]
fn capsule_tells_when_it_appears_and_hides_where_unwanted() {
    let mut c = Coordinator::new(0);
    let first =
        c.emit_capsule(CapsuleState::Recording, SessionPhase::Listening, 0, None, None, true);
    assert!(first.is_entry_frame);
    assert!(first.esc_exclusive);
    assert_eq!(first.display, CapsuleDisplay::Show);
    let second =
        c.emit_capsule(CapsuleState::Recording, SessionPhase::Listening, 0, None, None, true);
    assert!(!second.is_entry_frame);
    assert!(second.epoch > first.epoch);
    let hidden =
        c.emit_capsule(CapsuleState::Done, SessionPhase::Idle, 0, None, None, false);
    assert_eq!(hidden.display, CapsuleDisplay::Hide);
}

#[test]
fn front_app_is_told_with_its_bundle() {
    assert_eq!(
        front_app_label(
            Some("Terminal".to_string()),
            Some("com.apple.Terminal".to_string())
        )
        .as_deref(),
        Some("Terminal (com.apple.Terminal)")
    );
    assert_eq!(front_app_label(None, None), None);
}

#[test]
fn supervisor_installs_waits_and_ends() {
    assert!(matches!(
        hotkey_supervisor_step(true, false, Platform::Macos, false, 0),
        SuperviseStep::Exit
    ));
    assert!(matches!(
        hotkey_supervisor_step(false, true, Platform::Macos, false, 0),
        SuperviseStep::Exit
    ));
    match hotkey_supervisor_step(false, false, Platform::Linux, false, 0) {
        SuperviseStep::Unavailable(status) => {
            assert_eq!(status.state, HotkeyStatusState::Failed);
            assert_eq!(status.last_error.unwrap().code, "fcitx5_unavailable");
        },
        _ => panic!("installed without the plugin"),
    }
    match hotkey_supervisor_step(false, false, Platform::Macos, false, 1) {
        SuperviseStep::Install(status) => {
            assert_eq!(status.state, HotkeyStatusState::Starting);
            assert_eq!(status.message.as_deref(), Some("正在安装全局快捷键监听（第 2 次）"));
        },
        _ => panic!("not installed"),
    }
    assert!(logs_attempt(3));
    assert!(!logs_attempt(4));
    assert!(logs_attempt(20));
}

#[test]
fn installation_is_told() {
    let status = hotkey_install_outcome(Ok("CGEventTap".to_string()));
    assert_eq!(status.state, HotkeyStatusState::Installed);
    assert_eq!(status.message.as_deref(), Some("CGEventTap 已安装"));
    let status = hotkey_install_outcome(Err(HotkeyInstallError {
        code: "denied".to_string(),
        message: "no permission".to_string(),
    }));
    assert_eq!(status.state, HotkeyStatusState::Failed);
    assert_eq!(status.message.as_deref(), Some("no permission"));
    assert_eq!(status.last_error.unwrap().code, "denied");
}

#[test]
fn combination_monitors_follow_the_binding() {
    let combo = dictation_binding(&binding("D", &["cmd"]), false, false);
    assert_eq!(combo, DictationBinding::Combo);
    assert_eq!(
        dictation_binding(&binding("", &[]), false, false),
        DictationBinding::Unconfigured
    );
    assert_eq!(
        dictation_binding(&binding("LeftOption", &[]), true, false),
        DictationBinding::ModifierOnly
    );
    assert_eq!(
        dictation_binding(&binding("D", &["cmd-left"]), false, true),
        DictationBinding::SideAware
    );
    assert_eq!(
        combo_supervisor_step(false, combo, false, false),
        ComboPlan { drop_combo: false, drop_side_aware: true, action: MonitorAction::Start }
    );
    assert_eq!(
        update_combo_hotkey_binding(combo, true),
        ComboPlan { drop_combo: false, drop_side_aware: true, action: MonitorAction::Update }
    );
    assert_eq!(
        update_combo_hotkey_binding(DictationBinding::SideAware, true),
        ComboPlan { drop_combo: true, drop_side_aware: true, action: MonitorAction::StartSideAware }
    );
    let (_, outcome) = update_dictation_hotkey_binding(combo, true, false);
    assert_eq!(outcome, Err("dictation hotkey monitor 未初始化".to_string()));
    let (plan, action) = update_hotkey_binding(DictationBinding::ModifierOnly, true, true);
    assert!(plan.drop_combo);
    assert_eq!(action, MonitorAction::Update);
}

#[test]
fn translation_key_may_be_a_modifier_alone() {
    assert!(is_builtin_translation_shift(&binding("Shift", &[])));
    assert!(!is_builtin_translation_shift(&binding("Shift", &["cmd"])));
    assert!(is_modifier_only_shortcut(&binding("LeftOption", &[]), true));
    assert!(is_unconfigured_shortcut(&binding("  ", &[])));
    assert_eq!(
        translation_supervisor_step(false, &binding("Shift", &[]), false, true, true),
        MonitorPlan { drop: true, update_modifiers: true, action: MonitorAction::Nothing }
    );
    assert_eq!(
        try_update_translation_hotkey_binding(&binding("T", &["cmd"]), false, true, true),
        MonitorPlan { drop: false, update_modifiers: true, action: MonitorAction::Update }
    );
    assert_eq!(
        modifier_shortcut_trigger(&binding("shift", &[]), Some(HotkeyTrigger::Fn)),
        None
    );
    assert_eq!(
        reset_shortcut_held_state(
            &binding("Shift", &[]),
            false,
            &Some(binding("O", &["cmd"])),
            false
        ),
        (false, true)
    );
}

#[test]
fn key_that_opens_the_program_may_be_cleared() {
    assert_eq!(
        action_supervisor_step(false, &None, false, true),
        MonitorPlan { drop: true, update_modifiers: false, action: MonitorAction::Nothing }
    );
    assert_eq!(
        update_action_hotkey_binding(&Some(binding("O", &["cmd"])), false, true),
        MonitorPlan { drop: false, update_modifiers: false, action: MonitorAction::Update }
    );
}

#[test]
fn translation_is_seen_only_while_recording() {
    let mut c = Coordinator::new(0);
    c.on_translation_modifier(&binding("Shift", &[]), false);
    assert!(!c.translation_modifier_seen);
    c.state.phase = SessionPhase::Listening;
    c.on_translation_modifier(&binding("T", &["cmd"]), false);
    assert!(!c.translation_modifier_seen);
    c.on_translation_modifier(&binding("Shift", &[]), false);
    assert!(c.translation_modifier_seen);
}

#[test]
fn window_events_stand_in_for_the_monitor_on_windows() {
    let capability = HotkeyCapability { explicit_fallback_available: true };
    let trigger = Some(HotkeyTrigger::RightControl);
    let step = |recording: bool, platform: Platform, event: &str, key: &str, repeat: bool| {
        handle_window_hotkey_event(
            recording,
            platform,
            &capability,
            trigger,
            event,
            key,
            "ControlRight",
            repeat,
        )
    };
    assert_eq!(
        step(true, Platform::Windows, "keydown", "Escape", false),
        WindowHotkeyStep::Ignore
    );
    assert_eq!(
        step(false, Platform::Macos, "keydown", "Escape", false),
        WindowHotkeyStep::Cancel
    );
    assert_eq!(
        step(false, Platform::Windows, "keydown", "Control", false),
        WindowHotkeyStep::Pressed
    );
    assert_eq!(
        step(false, Platform::Windows, "keydown", "Control", true),
        WindowHotkeyStep::Ignore
    );
    assert_eq!(
        step(false, Platform::Windows, "keyup", "Control", false),
        WindowHotkeyStep::Released
    );
    assert_eq!(
        step(false, Platform::Macos, "keydown", "Control", false),
        WindowHotkeyStep::Ignore
    );
}

#[test]
fn dev_click_presses_releases_and_cancels() {
    let mut c = Coordinator::new(0);
    let mut out: Vec<Effect> = Vec::new();
    assert_eq!(c.handle_pressed(HotkeyMode::Toggle, MS, MS, &mut out), PressDecision::Begin);
    c.handle_released_edge(HotkeyMode::Toggle, 2 * MS, 2 * MS, &mut out);
    c.cancel_session(3 * MS, &mut out);
    assert_eq!(c.state.phase, SessionPhase::Idle);
}

#[test]
fn combination_that_shows_late_takes_the_session_back() {
    let mut c = Coordinator::new(0);
    c.state.phase = SessionPhase::Starting;
    c.state.session_id = session_id(7);
    c.hotkey.trigger_held = true;
    c.hotkey.press_generation = 3;
    c.hotkey.press_began_session = 3;
    let mut out = Vec::new();

    c.settle_press(2, true, 5 * MS, &mut out);
    assert_eq!(c.state.phase, SessionPhase::Starting);
    assert!(c.hotkey.trigger_held);

    c.settle_press(3, true, 5 * MS, &mut out);
    assert!(c.state.cancelled);
    assert!(!c.hotkey.trigger_held);
    assert_eq!(c.hotkey.press_began_session, 0);
    assert_eq!(c.hotkey.cooldown_until, None);
}

#[test]
fn holding_the_key_begins_and_letting_go_ends() {
    let mut c = Coordinator::new(0);
    let mut out = Vec::new();
    let now: u64 = 1_000 * MS;
    assert_eq!(
        c.handle_pressed_edge(HotkeyMode::Hold, 1, now, now, &mut out),
        PressDecision::Begin
    );
    c.state.phase = SessionPhase::Listening;
    assert_eq!(
        c.handle_released_edge(HotkeyMode::Hold, now + MS, now + MS, &mut out),
        ReleaseDecision::End
    );

    let mut c = Coordinator::new(0);
    let mut out = Vec::new();
    c.handle_pressed_edge(HotkeyMode::Hold, 1, now, now, &mut out);
    c.state.phase = SessionPhase::Starting;
    assert_eq!(
        c.handle_released_edge(HotkeyMode::Hold, now + MS, now + MS, &mut out),
        ReleaseDecision::StopQueued
    );
    assert!(c.state.pending_stop);
}

#[test]
fn levels_are_shown_only_while_recording_and_not_too_often() {
    let mut c = Coordinator::new(0);
    let mut last: Option<u64> = None;
    assert_eq!(c.level_frame(&mut last, 10 * MS), None);
    c.state.phase = SessionPhase::Listening;
    assert_eq!(c.dictation_phase_for_cli(), SessionPhase::Listening);
    assert_eq!(c.level_frame(&mut last, 10 * MS), Some(10));
    assert_eq!(c.level_frame(&mut last, 10 * MS + 1), None);
    assert_eq!(last, Some(10 * MS));
    assert_eq!(c.level_frame(&mut last, 1_000 * MS), Some(1_000));
}
