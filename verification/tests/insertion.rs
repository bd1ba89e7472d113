use zhunji::coordinator::ime::{
    finish_non_tsf_insertion_fallback, ime_begin, ime_submitted,
    should_try_non_tsf_insertion_fallback, store_prepared_windows_ime_session,
    take_current_prepared_windows_ime_session_for_restore,
    take_matching_prepared_windows_ime_session, ImeStep, PreparedWindowsImeSessionSlot,
};
use zhunji::coordinator::streaming::{
    append_typed_prefix, default_done_message, dictation_error_code, finalize_polished_text,
    flush_streaming_insert_buffer_with, transcript_or_override, StreamingInsert,
};
use zhunji::coordinator_state::SessionId;
use zhunji::insertion::{
    expected_sendinput_typed_chars, insert_with_clipboard_restore,
    insert_with_fcitx_or_clipboard_fallback, insertion_success_status, map_sendinput_type_result,
    paste_keys, should_restore_clipboard, ClipboardRestores, PasteKey, PasteRun, PasteStep,
    TextInserter, TypeFailure,
};
use zhunji::types::{
    ChineseScriptPreference, InsertStatus, PasteShortcut, Platform, WindowsInsertionMode,
};

fn session_id(n: u128) -> SessionId {
    SessionId::from_u128(n)
}

#[test]
fn restore_only_when_clipboard_still_holds_inserted_text() {
    assert!(should_restore_clipboard(Some("dictated text"), "dictated text"));
    assert!(!should_restore_clipboard(Some("user changed clipboard"), "dictated text"));
    assert!(!should_restore_clipboard(None, "dictated text"));
}

#[test]
fn paste_keys_match_configured_shortcut() {
    let (mods, primary) = paste_keys(PasteShortcut::CtrlV);
    assert_eq!(mods.len(), 1);
    assert!(matches!(mods[0], PasteKey::Control));
    assert!(matches!(primary, PasteKey::V));

    let (mods, primary) = paste_keys(PasteShortcut::CtrlShiftV);
    assert_eq!(mods.len(), 2);
    assert!(matches!(mods[0], PasteKey::Control));
    assert!(matches!(mods[1], PasteKey::Shift));
    assert!(matches!(primary, PasteKey::V));

    let (mods, primary) = paste_keys(PasteShortcut::ShiftInsert);
    assert_eq!(mods.len(), 1);
    assert!(matches!(mods[0], PasteKey::Shift));
    assert!(matches!(primary, PasteKey::Insert));
}

#[test]
fn crlf_sendinput_success_uses_expected_typed_count() {
    let text = "a\r\nb";
    let expected: usize = expected_sendinput_typed_chars(text);
    let status = map_sendinput_type_result(text, Ok(expected));
    assert_eq!(status, InsertStatus::Inserted);
    assert_ne!(text.chars().count(), expected);
}

#[test]
fn crlf_sendinput_partial_mismatch_falls_back_to_clipboard() {
    let text = "a\r\nb";
    let expected: usize = expected_sendinput_typed_chars(text);
    let mismatched: usize = text.chars().count();
    assert_ne!(mismatched, expected);
    let status = map_sendinput_type_result(text, Ok(mismatched));
    assert_eq!(status, InsertStatus::CopiedFallback);
}

#[test]
fn empty_insertions_never_touch_clipboard_or_paste_path() {
    let inserter = TextInserter::new();
    let mut touched = false;

    for platform in [Platform::Macos, Platform::Windows, Platform::Linux] {
        assert_eq!(
            inserter.insert(
                platform,
                "",
                true,
                PasteShortcut::CtrlV,
                |_| Err("commit".to_string()),
                |_| {
                    touched = true;
                    Ok(None)
                },
                |_| Ok(()),
                |_| {},
            ),
            InsertStatus::CopiedFallback
        );
    }
    assert!(!touched);
    assert_eq!(
        inserter.insert_via_clipboard_fallback(
            Platform::Windows,
            "",
            true,
            PasteShortcut::CtrlV,
            |_| {
                touched = true;
                Ok(None)
            },
            |_| Ok(()),
            |_| {},
        ),
        InsertStatus::CopiedFallback
    );
    assert_eq!(
        inserter.copy_fallback("", |_| {
            touched = true;
            true
        }),
        InsertStatus::CopiedFallback
    );
    assert!(!touched);
}

#[test]
fn linux_commit_text_success_skips_clipboard_fallback() {
    let mut fallback_called = false;

    let status = insert_with_fcitx_or_clipboard_fallback(
        "dictated text",
        true,
        PasteShortcut::CtrlV,
        |text| {
            assert_eq!(text, "dictated text");
            Ok(())
        },
        |_, _, _| {
            fallback_called = true;
            InsertStatus::CopiedFallback
        },
    );

    assert_eq!(status, InsertStatus::Inserted);
    assert!(!fallback_called);
}

#[test]
fn linux_commit_text_failure_uses_clipboard_fallback() {
    let mut fallback_args = None;

    let status = insert_with_fcitx_or_clipboard_fallback(
        "dictated text",
        true,
        PasteShortcut::CtrlShiftV,
        |_| Err("plugin unavailable".to_string()),
        |text, restore_clipboard_after_paste, paste_shortcut| {
            fallback_args = Some((
                text.to_string(),
                restore_clipboard_after_paste,
                paste_shortcut,
            ));
            InsertStatus::CopiedFallback
        },
    );

    assert_eq!(status, InsertStatus::CopiedFallback);
    assert_eq!(
        fallback_args,
        Some(("dictated text".to_string(), true, PasteShortcut::CtrlShiftV))
    );
}

#[test]
fn linux_empty_insert_skips_commit_text_and_clipboard_fallback() {
    let mut commit_called = false;
    let mut fallback_called = false;

    let status = insert_with_fcitx_or_clipboard_fallback(
        "",
        true,
        PasteShortcut::CtrlV,
        |_| {
            commit_called = true;
            Ok(())
        },
        |_, _, _| {
            fallback_called = true;
            InsertStatus::CopiedFallback
        },
    );

    assert_eq!(status, InsertStatus::CopiedFallback);
    assert!(!commit_called);
    assert!(!fallback_called);
}

#[test]
fn pending_clipboard_restore_keeps_first_original_until_latest_restore() {
    let mut restores = ClipboardRestores::new();

    let (first_id, first_original) =
        restores.remember_pending_clipboard_restore(Some("user clipboard".to_string()));
    let (second_id, second_original) =
        restores.remember_pending_clipboard_restore(Some("first dictated text".to_string()));

    assert_ne!(first_id, second_id);
    assert_eq!(first_original.as_deref(), Some("user clipboard"));
    assert_eq!(second_original.as_deref(), Some("user clipboard"));
    assert!(!restores.is_latest_clipboard_restore(first_id));
    assert!(restores.is_latest_clipboard_restore(second_id));

    restores.clear_pending_clipboard_restore(first_id);
    assert!(restores.is_latest_clipboard_restore(second_id));
    restores.clear_pending_clipboard_restore(second_id);
    assert!(!restores.is_latest_clipboard_restore(second_id));
}

#[test]
fn clipboard_restore_skips_when_clipboard_no_longer_matches_inserted_text() {
    assert!(should_restore_clipboard(Some("dictated text"), "dictated text"));
    assert!(!should_restore_clipboard(Some("user edited clipboard"), "dictated text"));
    assert!(!should_restore_clipboard(None, "dictated text"));
}

#[test]
fn macos_paste_success_reports_inserted_and_guards_restore() {
    assert_eq!(insertion_success_status(Platform::Macos), InsertStatus::Inserted);
    assert!(should_restore_clipboard(Some("dictated text"), "dictated text"));
    assert!(!should_restore_clipboard(Some("user changed clipboard"), "dictated text"));
}

#[test]
fn clipboard_gets_its_first_text_back_after_the_last_insertion() {
    let mut restores = ClipboardRestores::new();
    let (first, original) = restores.remember_pending_clipboard_restore(Some("mine".to_string()));
    let (second, again) = restores.remember_pending_clipboard_restore(Some("one".to_string()));
    assert_eq!(
        restores.restore_clipboard_after_delay(first, original, "one", true, Some("one")),
        None
    );
    assert_eq!(
        restores.restore_clipboard_after_delay(second, again, "two", true, Some("two")),
        Some("mine".to_string())
    );
    assert!(!restores.is_latest_clipboard_restore(second));
}

#[test]
fn paste_plans_the_clipboard_to_be_restored() {
    let mut planned = None;
    let status = insert_with_clipboard_restore(
        Platform::Windows,
        "text",
        true,
        PasteShortcut::CtrlV,
        |_| Ok(Some("before".to_string())),
        |_| Ok(()),
        |plan| planned = Some(plan),
    );
    assert_eq!(status, InsertStatus::PasteSent);
    let planned = planned.unwrap();
    assert_eq!(planned.inserted_text, "text");
    assert_eq!(planned.previous_text.as_deref(), Some("before"));
}

#[test]
fn paste_that_fails_leaves_the_text_on_the_clipboard() {
    let mut planned = false;
    let status = insert_with_clipboard_restore(
        Platform::Macos,
        "text",
        true,
        PasteShortcut::CtrlV,
        |_| Ok(Some("before".to_string())),
        |_| Err("no".to_string()),
        |_| planned = true,
    );
    assert_eq!(status, InsertStatus::CopiedFallback);
    assert!(!planned);
    let status = insert_with_clipboard_restore(
        Platform::Macos,
        "text",
        true,
        PasteShortcut::CtrlV,
        |_| Err("locked".to_string()),
        |_| Ok(()),
        |_| planned = true,
    );
    assert_eq!(status, InsertStatus::Failed);
    assert!(!planned);
}

#[test]
fn clipboard_is_restored_only_where_that_is_wanted() {
    let mut planned = false;
    let status = insert_with_clipboard_restore(
        Platform::Windows,
        "text",
        false,
        PasteShortcut::CtrlV,
        |_| Ok(Some("before".to_string())),
        |_| Ok(()),
        |_| planned = true,
    );
    assert_eq!(status, InsertStatus::PasteSent);
    assert!(!planned);
}

#[test]
fn text_that_was_committed_is_not_pasted_too() {
    let mut written = false;
    let status = TextInserter::new().insert(
        Platform::Linux,
        "text",
        true,
        PasteShortcut::CtrlV,
        |_| Ok(()),
        |_| {
            written = true;
            Ok(None)
        },
        |_| Ok(()),
        |_| {},
    );
    assert_eq!(status, InsertStatus::Inserted);
    assert!(!written);
}

#[test]
fn nothing_is_typed_where_nothing_waits() {
    let mut pending = String::new();
    let mut typed = "before".to_string();
    let mut called = false;
    let failure = flush_streaming_insert_buffer_with(&mut pending, &mut typed, |_| {
        called = true;
        Ok(0)
    });
    assert_eq!(failure, None);
    assert_eq!(typed, "before");
    assert!(!called);
}

#[test]
fn typed_text_counts_only_when_all_of_it_was_typed() {
    let inserter = TextInserter::new();
    assert_eq!(
        inserter.insert_via_unicode_keystrokes("ab", |_| Ok(2)),
        InsertStatus::Inserted
    );
    assert_eq!(
        inserter.insert_via_unicode_keystrokes("ab", |_| {
            Err(TypeFailure { typed_chars: 1, message: "no".to_string() })
        }),
        InsertStatus::CopiedFallback
    );
}

#[test]
fn no_key_stays_down_after_a_failed_paste() {
    let mut run = PasteRun::new(PasteShortcut::CtrlShiftV);
    assert!(matches!(run.step(Ok(())), PasteStep::Press(PasteKey::Control)));
    assert!(matches!(run.step(Ok(())), PasteStep::Press(PasteKey::Shift)));
    assert!(matches!(run.step(Err("stuck".to_string())), PasteStep::Release(PasteKey::Control)));
    match run.step(Ok(())) {
        PasteStep::Done(Err(_)) => {},
        _ => panic!("a failed paste counts as done"),
    }
}

#[test]
fn paste_presses_clicks_and_releases() {
    let mut run = PasteRun::new(PasteShortcut::ShiftInsert);
    assert!(matches!(run.step(Ok(())), PasteStep::Press(PasteKey::Shift)));
    assert!(matches!(run.step(Ok(())), PasteStep::Click(PasteKey::Insert)));
    assert!(matches!(run.step(Ok(())), PasteStep::Release(PasteKey::Shift)));
    assert!(matches!(run.step(Ok(())), PasteStep::Done(Ok(()))));
}

#[test]
fn unicode_fallback_runs_before_copy_fallback() {
    let mut copy_called = false;
    let status = finish_non_tsf_insertion_fallback(
        || InsertStatus::Inserted,
        || {
            copy_called = true;
            InsertStatus::CopiedFallback
        },
    );

    assert_eq!(status, InsertStatus::Inserted);
    assert!(!copy_called);
}

#[test]
fn copy_fallback_runs_after_unicode_failure() {
    let mut copy_called = false;
    let status = finish_non_tsf_insertion_fallback(
        || InsertStatus::Failed,
        || {
            copy_called = true;
            InsertStatus::CopiedFallback
        },
    );

    assert_eq!(status, InsertStatus::CopiedFallback);
    assert!(copy_called);
}

#[test]
fn double_failure_does_not_pretend_text_was_copied() {
    let mut copy_called = false;
    let status = finish_non_tsf_insertion_fallback(
        || InsertStatus::Failed,
        || {
            copy_called = true;
            InsertStatus::Failed
        },
    );

    assert_eq!(status, InsertStatus::Failed);
    assert!(copy_called);
}

#[test]
fn prepared_windows_ime_slot_is_taken_only_for_matching_session() {
    let mut slots =
        vec![PreparedWindowsImeSessionSlot { session_id: session_id(2), prepared: "none" }];

    assert!(take_matching_prepared_windows_ime_session(&mut slots, session_id(1)).is_none());
    assert_eq!(
        slots.iter().map(|slot| slot.session_id).collect::<Vec<_>>(),
        vec![session_id(2)]
    );

    assert!(take_matching_prepared_windows_ime_session(&mut slots, session_id(2)).is_some());
    assert!(slots.is_empty());
}

#[test]
fn prepared_windows_ime_sessions_keep_overlapping_snapshots() {
    let mut slots = Vec::new();
    store_prepared_windows_ime_session(&mut slots, session_id(1), "none");
    store_prepared_windows_ime_session(&mut slots, session_id(2), "none");

    assert_eq!(
        slots.iter().map(|slot| slot.session_id).collect::<Vec<_>>(),
        vec![session_id(1), session_id(2)]
    );

    assert!(take_matching_prepared_windows_ime_session(&mut slots, session_id(1)).is_some());
    assert_eq!(
        slots.iter().map(|slot| slot.session_id).collect::<Vec<_>>(),
        vec![session_id(2)]
    );
}

#[test]
fn stale_prepared_windows_ime_restore_discards_old_snapshot_without_restoring() {
    let mut slots = Vec::new();
    store_prepared_windows_ime_session(&mut slots, session_id(1), "none");
    store_prepared_windows_ime_session(&mut slots, session_id(2), "none");

    assert!(take_current_prepared_windows_ime_session_for_restore(
        &mut slots,
        session_id(1),
        session_id(2)
    )
    .is_none());
    assert_eq!(
        slots.iter().map(|slot| slot.session_id).collect::<Vec<_>>(),
        vec![session_id(2)]
    );
}

#[test]
fn non_tsf_insertion_fallback_gate_blocks_only_when_disabled() {
    assert!(should_try_non_tsf_insertion_fallback(true, InsertStatus::CopiedFallback));
    assert!(should_try_non_tsf_insertion_fallback(true, InsertStatus::Failed));
    assert!(!should_try_non_tsf_insertion_fallback(true, InsertStatus::Inserted));
    assert!(!should_try_non_tsf_insertion_fallback(false, InsertStatus::CopiedFallback));
    assert!(!should_try_non_tsf_insertion_fallback(false, InsertStatus::Failed));
}

#[test]
fn input_method_goes_first_and_falls_back_where_allowed() {
    assert_eq!(ime_begin(true, false), ImeStep::Submit);
    assert_eq!(ime_begin(false, true), ImeStep::Fallback);
    assert_eq!(ime_begin(false, false), ImeStep::Done(InsertStatus::Failed));
    assert_eq!(
        ime_submitted(Some(InsertStatus::Inserted), true),
        ImeStep::Done(InsertStatus::Inserted)
    );
    assert_eq!(ime_submitted(None, true), ImeStep::Fallback);
    assert_eq!(ime_submitted(None, false), ImeStep::Done(InsertStatus::Failed));
}

#[test]
fn focus_restore_failure_uses_specific_error_code_when_insert_fails() {
    assert_eq!(
        dictation_error_code(
            Platform::Linux,
            InsertStatus::Failed,
            false,
            false,
            false,
            WindowsInsertionMode::Tsf,
        ),
        Some("focusRestoreFailed")
    );
}

#[test]
fn tsf_required_failure_keeps_tsf_error_when_focus_was_ready() {
    assert_eq!(
        dictation_error_code(
            Platform::Windows,
            InsertStatus::Failed,
            false,
            true,
            false,
            WindowsInsertionMode::Tsf,
        ),
        Some("windowsImeTsfRequired")
    );
}

#[test]
fn sendinput_only_mode_skips_tsf_required_error() {
    for platform in [Platform::Windows, Platform::Macos, Platform::Linux] {
        assert_eq!(
            dictation_error_code(
                platform,
                InsertStatus::Failed,
                false,
                true,
                false,
                WindowsInsertionMode::SendInput,
            ),
            None
        );
    }
}

#[test]
fn streamed_output_skips_postprocessing_mutations() {
    let result = finalize_polished_text(
        "Open AI".into(),
        false,
        false,
        ChineseScriptPreference::Auto,
        true,
    );

    assert_eq!(result, "Open AI");
}

#[test]
fn raw_llm_output_still_applies_script_preference() {
    let result = finalize_polished_text(
        "繁體".into(),
        false,
        false,
        ChineseScriptPreference::Simplified,
        false,
    );

    assert_eq!(result, "繁体");
}

#[test]
fn append_typed_prefix_keeps_unicode_char_boundaries() {
    let mut typed = String::from("前");

    let appended: usize = append_typed_prefix(&mut typed, "a你🙂b", 3);

    assert_eq!(appended, 3);
    assert_eq!(typed, "前a你🙂");
}

#[test]
fn append_typed_prefix_caps_at_delta_length() {
    let mut typed = String::new();

    let appended: usize = append_typed_prefix(&mut typed, "好", 10);

    assert_eq!(appended, 1);
    assert_eq!(typed, "好");
}

#[test]
fn polish_output_honors_chinese_script_preference() {
    let finalize =
        |pref| finalize_polished_text("学习".to_string(), false, false, pref, false);
    let trad = finalize(ChineseScriptPreference::Traditional);
    assert!(
        !trad.contains('学') && !trad.contains('习'),
        "traditional pref left simplified chars: {trad}"
    );
    let simp = finalize(ChineseScriptPreference::Simplified);
    assert!(
        simp.contains('学') && simp.contains('习'),
        "simplified pref: {simp}"
    );
    assert_eq!(finalize(ChineseScriptPreference::Auto), "学习");
}

#[test]
fn translated_text_keeps_its_script() {
    assert_eq!(
        finalize_polished_text(
            "学习".to_string(),
            true,
            false,
            ChineseScriptPreference::Traditional,
            false,
        ),
        "学习"
    );
}

#[test]
fn default_done_message_works_correctly() {
    for platform in [Platform::Macos, Platform::Windows, Platform::Linux] {
        assert_eq!(
            default_done_message(platform, InsertStatus::PasteSent, false),
            Some("已尝试粘贴".to_string())
        );
        assert_eq!(
            default_done_message(platform, InsertStatus::Inserted, true),
            Some("润色失败，已插入原文".to_string())
        );
    }
}

#[test]
fn streaming_insert_batches_queued_deltas_before_flush() {
    let mut flushed: Vec<String> = Vec::new();
    let mut stream = StreamingInsert::new();
    let interval: u64 = 50_000_000;
    stream.push("你", 0, interval);
    stream.push("好", 1_000, interval);
    stream.push("🙂", 2_000, interval);
    assert_eq!(stream.remaining(2_000), Some(49_998_000));
    stream.flush(|pending| {
        flushed.push(pending.to_string());
        Ok(pending.chars().count())
    });

    assert_eq!(flushed, vec!["你好🙂".to_string()]);
    assert_eq!(stream.typed, "你好🙂");
    assert_eq!(stream.failure, None);
    assert_eq!(stream.remaining(3_000), None);
}

#[test]
fn nothing_is_typed_after_a_failure() {
    let mut stream = StreamingInsert::new();
    stream.push("ab", 0, 10);
    stream.flush(|_| Err(TypeFailure { typed_chars: 1, message: "stuck".to_string() }));
    assert_eq!(stream.typed, "a");
    assert_eq!(stream.failure.as_deref(), Some("stuck"));
    stream.push("c", 20, 10);
    assert_eq!(stream.pending, "");
    let mut typed = false;
    stream.flush(|_| {
        typed = true;
        Ok(1)
    });
    assert!(!typed);
}

#[test]
fn short_typing_is_a_problem() {
    let mut pending = "abc".to_string();
    let mut typed = String::new();
    let failure = flush_streaming_insert_buffer_with(&mut pending, &mut typed, |_| Ok(2));
    assert_eq!(typed, "ab");
    assert_eq!(failure.as_deref(), Some("type_unicode_chunk typed only 2/3 chars without error"));
}

#[test]
fn flush_streaming_insert_buffer_keeps_partial_unicode_prefix() {
    let mut pending = "a你🙂b".to_string();
    let mut typed = String::new();

    let failure = flush_streaming_insert_buffer_with(&mut pending, &mut typed, |_| {
        Err(TypeFailure { typed_chars: 3, message: "fail".to_string() })
    });

    assert_eq!(typed, "a你🙂");
    assert!(pending.is_empty());
    assert!(failure.is_some());
}

#[test]
fn debug_text_takes_the_place_of_a_blank_transcript() {
    assert_eq!(transcript_or_override("heard".to_string(), None), "heard");
    assert_eq!(transcript_or_override("heard".to_string(), Some("given")), "heard");
    assert_eq!(transcript_or_override(" ".to_string(), Some(" given ")), "given");
}
