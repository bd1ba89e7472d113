use zhunji::side_aware_combo::{
    dispatch_keycode, dispatch_vk, handle_primary_key, handle_side_modifier,
    is_side_specific_modifier_tag, macos_keycode_to_primary, normalize_side_modifier_tag,
    primary_from_vk, resolve_side_pressed_from_flags, side_from_keycode, side_from_vk,
    ComboHotkeyError, ComboHotkeyEvent, SideAwareComboMonitor, SideAwareComboState, SideModifier,
};
use zhunji::types::{Platform, ShortcutBinding};

#[test]
fn macos_keycode_2_is_d() {
    assert_eq!(macos_keycode_to_primary(2), Some("D"));
}

#[test]
fn macos_keycode_us_ansi_samples() {
    assert_eq!(macos_keycode_to_primary(17), Some("T"));
    assert_eq!(macos_keycode_to_primary(11), Some("B"));
    assert_eq!(macos_keycode_to_primary(24), Some("="));
    assert_eq!(macos_keycode_to_primary(29), Some("0"));
    assert_eq!(macos_keycode_to_primary(44), Some("/"));
}

#[test]
fn macos_letter_keycodes_are_non_contiguous() {
    assert_eq!(macos_keycode_to_primary(0), Some("A"));
    assert_eq!(macos_keycode_to_primary(1), Some("S"));
    assert_eq!(macos_keycode_to_primary(8), Some("C"));
    assert_eq!(macos_keycode_to_primary(9), Some("V"));
    assert_eq!(macos_keycode_to_primary(12), Some("Q"));
    assert_eq!(macos_keycode_to_primary(17), Some("T"));
}

#[test]
fn side_specific_combo_matches_required_modifiers() {
    let mut state = SideAwareComboState::new(ShortcutBinding {
        primary: "D".into(),
        modifiers: vec!["cmd-left".into()],
    });
    state.set_side(SideModifier::CmdLeft, true);
    assert!(state.modifiers_match());
    let evt = state.on_primary("D", true, 0);
    assert!(matches!(evt, Some(ComboHotkeyEvent::Pressed { .. })));
}

#[test]
fn shift_right_combo_requires_right_shift() {
    let mut state = SideAwareComboState::new(ShortcutBinding {
        primary: "D".into(),
        modifiers: vec!["shift-right".into()],
    });
    state.set_side(SideModifier::ShiftLeft, true);
    assert!(!state.modifiers_match());
    state.set_side(SideModifier::ShiftLeft, false);
    state.set_side(SideModifier::ShiftRight, true);
    assert!(state.modifiers_match());
    assert!(matches!(
        state.on_primary("D", true, 0),
        Some(ComboHotkeyEvent::Pressed { .. })
    ));
}

#[test]
fn extra_modifier_blocks_exact_match() {
    let mut state = SideAwareComboState::new(ShortcutBinding {
        primary: "D".into(),
        modifiers: vec!["cmd-left".into()],
    });
    state.set_side(SideModifier::CmdLeft, true);
    state.set_side(SideModifier::ShiftLeft, true);
    assert!(!state.modifiers_match());
    assert_eq!(state.on_primary("D", true, 0), None);
}

#[test]
fn releasing_extra_modifier_allows_combo() {
    let mut state = SideAwareComboState::new(ShortcutBinding {
        primary: "D".into(),
        modifiers: vec!["cmd-left".into()],
    });
    state.set_side(SideModifier::CmdLeft, true);
    state.set_side(SideModifier::CmdRight, true);
    assert!(!state.modifiers_match());
    state.set_side(SideModifier::CmdRight, false);
    assert!(state.modifiers_match());
}

#[test]
fn super_left_alias_matches_physical_cmd_left() {
    let mut state = SideAwareComboState::new(ShortcutBinding {
        primary: "D".into(),
        modifiers: vec!["super-left".into()],
    });
    state.set_side(SideModifier::CmdLeft, true);
    assert!(state.modifiers_match());
    assert!(matches!(
        state.on_primary("D", true, 0),
        Some(ComboHotkeyEvent::Pressed { .. })
    ));
}

#[test]
fn super_left_alias_rejects_extra_modifier() {
    let mut state = SideAwareComboState::new(ShortcutBinding {
        primary: "D".into(),
        modifiers: vec!["super-left".into()],
    });
    state.set_side(SideModifier::CmdLeft, true);
    state.set_side(SideModifier::ShiftLeft, true);
    assert!(!state.modifiers_match());
    assert_eq!(state.on_primary("D", true, 0), None);
}

#[test]
fn macos_side_keycodes_are_distinct() {
    assert_eq!(side_from_keycode(55), Some(SideModifier::CmdLeft));
    assert_eq!(side_from_keycode(54), Some(SideModifier::CmdRight));
    assert_eq!(side_from_keycode(56), Some(SideModifier::ShiftLeft));
    assert_eq!(side_from_keycode(60), Some(SideModifier::ShiftRight));
}


fn cmd_left_d_state() -> SideAwareComboState {
    SideAwareComboState::new(ShortcutBinding {
        primary: "D".into(),
        modifiers: vec!["cmd-left".into()],
    })
}

#[test]
fn normal_press_then_release_is_paired() {
    let mut state = cmd_left_d_state();
    state.set_side(SideModifier::CmdLeft, true);
    assert!(matches!(
        state.on_primary("D", true, 0),
        Some(ComboHotkeyEvent::Pressed { .. })
    ));
    assert!(matches!(
        state.on_primary("D", false, 0),
        Some(ComboHotkeyEvent::Released { .. })
    ));
    assert_eq!(state.on_primary("D", false, 0), None);
    assert!(!state.combo_active);
}

#[test]
fn modifier_release_after_press_emits_paired_released() {
    let mut state = cmd_left_d_state();
    state.set_side(SideModifier::CmdLeft, true);
    assert!(matches!(
        state.on_primary("D", true, 0),
        Some(ComboHotkeyEvent::Pressed { .. })
    ));
    assert!(matches!(
        state.on_modifier_release(SideModifier::CmdLeft, 0),
        Some(ComboHotkeyEvent::Released { .. })
    ));
    assert!(!state.combo_active);
    assert_eq!(state.on_primary("D", false, 0), None);
}

#[test]
fn dropped_modifier_release_is_recovered_on_primary_up() {
    let mut state = cmd_left_d_state();
    state.set_side(SideModifier::CmdLeft, true);
    assert!(matches!(
        state.on_primary("D", true, 0),
        Some(ComboHotkeyEvent::Pressed { .. })
    ));
    assert!(matches!(
        state.on_primary("D", false, 0),
        Some(ComboHotkeyEvent::Released { .. })
    ));
    assert!(!state.combo_active);
}

#[test]
fn stale_combo_active_reset_when_modifiers_stop_matching() {
    let mut state = cmd_left_d_state();
    state.combo_active = true;
    assert!(!state.modifiers_match());
    let evt = state.on_primary("D", true, 0);
    assert!(matches!(evt, Some(ComboHotkeyEvent::Released { .. })));
    assert!(!state.combo_active);
}

#[test]
fn dropped_release_then_fresh_full_press_triggers_again() {
    let mut state = cmd_left_d_state();
    state.combo_active = true;

    assert!(matches!(
        state.on_modifier_release(SideModifier::CmdLeft, 0),
        Some(ComboHotkeyEvent::Released { .. })
    ));
    assert!(!state.combo_active);

    state.set_side(SideModifier::CmdLeft, true);
    assert!(matches!(
        state.on_primary("D", true, 0),
        Some(ComboHotkeyEvent::Pressed { .. })
    ));
    assert!(matches!(
        state.on_primary("D", false, 0),
        Some(ComboHotkeyEvent::Released { .. })
    ));
}

#[test]
fn stale_combo_active_still_matching_does_not_double_press() {
    let mut state = cmd_left_d_state();
    state.set_side(SideModifier::CmdLeft, true);
    state.combo_active = true;
    assert!(state.modifiers_match());
    assert_eq!(state.on_primary("D", true, 0), None);
    assert!(matches!(
        state.on_primary("D", false, 0),
        Some(ComboHotkeyEvent::Released { .. })
    ));
}


#[test]
fn flags_class_bit_clear_forces_side_released() {
    assert_eq!(resolve_side_pressed_from_flags(55, 0), Some(false));
    assert_eq!(resolve_side_pressed_from_flags(54, 0), Some(false));
    let shift_only: u64 = 1 << 17;
    assert_eq!(resolve_side_pressed_from_flags(55, shift_only), Some(false));
}

#[test]
fn flags_class_bit_set_defers_to_query() {
    let cmd_bit: u64 = 1 << 20;
    assert_eq!(resolve_side_pressed_from_flags(55, cmd_bit), None);
    assert_eq!(resolve_side_pressed_from_flags(54, cmd_bit), None);
    let shift_bit: u64 = 1 << 17;
    assert_eq!(resolve_side_pressed_from_flags(56, shift_bit), None);
    assert_eq!(resolve_side_pressed_from_flags(60, shift_bit), None);
}

#[test]
fn flags_classifier_maps_each_modifier_class() {
    let ctrl_bit: u64 = 1 << 18;
    let alt_bit: u64 = 1 << 19;
    assert_eq!(resolve_side_pressed_from_flags(59, ctrl_bit), None);
    assert_eq!(resolve_side_pressed_from_flags(58, ctrl_bit), Some(false));
    assert_eq!(resolve_side_pressed_from_flags(58, alt_bit), None);
    assert_eq!(resolve_side_pressed_from_flags(2, alt_bit), None);
    assert_eq!(resolve_side_pressed_from_flags(2, 0), None);
}

fn cmd_left_d() -> ShortcutBinding {
    ShortcutBinding { primary: "D".into(), modifiers: vec!["cmd-left".into()] }
}

#[test]
fn presses_and_releases_take_turns() {
    let mut state = SideAwareComboState::new(cmd_left_d());
    state.set_side(SideModifier::CmdLeft, true);
    assert_eq!(state.on_primary("d", true, 5), Some(ComboHotkeyEvent::Pressed { at: 5 }));
    assert_eq!(state.on_primary("d", true, 6), None);
    assert_eq!(state.on_primary("d", false, 7), Some(ComboHotkeyEvent::Released { at: 7 }));
    assert_eq!(state.on_primary("d", false, 8), None);
}

#[test]
fn another_key_is_not_the_primary_key() {
    let mut state = SideAwareComboState::new(cmd_left_d());
    state.set_side(SideModifier::CmdLeft, true);
    assert_eq!(state.on_primary("E", true, 0), None);
    assert!(!state.combo_active);
}

#[test]
fn monitor_refuses_what_it_cannot_watch() {
    let mut monitor = SideAwareComboMonitor::new();
    match monitor.start(Platform::Linux, cmd_left_d(), None) {
        Err(ComboHotkeyError::UnsupportedModifier(m)) => {
            assert_eq!(m, "侧向修饰键组合键在 Linux 暂不支持")
        },
        _ => panic!("watched on Linux"),
    }
    let plain = ShortcutBinding { primary: "D".into(), modifiers: vec!["cmd".into()] };
    match monitor.start(Platform::Macos, plain, None) {
        Err(ComboHotkeyError::UnsupportedModifier(m)) => {
            assert_eq!(m, "binding is not side-specific")
        },
        _ => panic!("watched without a side"),
    }
    match monitor.start(Platform::Macos, cmd_left_d(), Some("no such key".to_string())) {
        Err(ComboHotkeyError::UnsupportedKey(m)) => assert_eq!(m, "no such key"),
        _ => panic!("watched an unknown key"),
    }
    assert!(monitor.start(Platform::Macos, cmd_left_d(), None).is_ok());
    assert!(monitor.active.is_some());
    monitor.stop();
    assert!(monitor.active.is_none());
}

#[test]
fn monitor_follows_windows_keys() {
    let mut monitor = SideAwareComboMonitor::new();
    assert!(monitor.start(Platform::Windows, cmd_left_d(), None).is_ok());
    assert_eq!(dispatch_vk(&mut monitor, 0x5b, true, 1), None);
    assert_eq!(
        dispatch_vk(&mut monitor, 0x44, true, 2),
        Some(ComboHotkeyEvent::Pressed { at: 2 })
    );
    assert_eq!(
        dispatch_vk(&mut monitor, 0x5b, false, 3),
        Some(ComboHotkeyEvent::Released { at: 3 })
    );
    assert_eq!(side_from_vk(0xa5), Some(SideModifier::AltRight));
    assert_eq!(side_from_vk(0x41), None);
    assert_eq!(primary_from_vk(0x41), Some("A".to_string()));
    assert_eq!(primary_from_vk(0x5b), None);
}

#[test]
fn monitor_follows_mac_keys() {
    let mut monitor = SideAwareComboMonitor::new();
    assert!(monitor.start(Platform::Macos, cmd_left_d(), None).is_ok());
    let cmd_bit: u64 = 1 << 20;
    assert_eq!(dispatch_keycode(&mut monitor, 55, true, cmd_bit, false, true, 1), None);
    assert_eq!(
        dispatch_keycode(&mut monitor, 2, false, cmd_bit, true, false, 2),
        Some(ComboHotkeyEvent::Pressed { at: 2 })
    );
    assert_eq!(
        dispatch_keycode(&mut monitor, 2, false, cmd_bit, false, false, 3),
        Some(ComboHotkeyEvent::Released { at: 3 })
    );
}

#[test]
fn idle_monitor_tells_nothing() {
    let mut monitor = SideAwareComboMonitor::new();
    assert_eq!(handle_side_modifier(&mut monitor, SideModifier::CmdLeft, true, 1), None);
    assert_eq!(handle_primary_key(&mut monitor, "D", true, 2), None);
}

#[test]
fn super_is_another_name_for_command() {
    assert_eq!(normalize_side_modifier_tag("super-left"), "cmd-left");
    assert_eq!(normalize_side_modifier_tag("super-right"), "cmd-right");
    assert_eq!(normalize_side_modifier_tag("alt-left"), "alt-left");
    assert!(is_side_specific_modifier_tag("super-left"));
    assert!(!is_side_specific_modifier_tag("super"));
}

#[test]
fn key_names_are_distinct() {
    let names: Vec<&str> = (0i64..128).filter_map(|code| macos_keycode_to_primary(code)).collect();
    assert_eq!(names.len(), 69);
    for (i, name) in names.iter().enumerate() {
        assert!(!names[i + 1..].contains(name), "{name}");
    }
}
