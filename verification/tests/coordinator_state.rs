use zhunji::coordinator_state::{
    begin_cancel_session_state, begin_recording_abort_before_restore, begin_session_state,
    finish_cancel_session_state, finish_cancelled_processing_state, finish_starting_session_state,
    initial_session_id, millis_between, new_session_id, publish_abort_idle_after_restore,
    request_stop_during_starting_state, start_processing_if_listening, startup_race_status,
    BeginOutcome, SessionId, SessionPhase, SessionState, StartupRaceStatus,
};

fn session_id(n: u128) -> SessionId {
    SessionId::from_u128(n)
}

#[test]
fn begin_session_enters_starting_and_clears_stale_edges() {
    let mut state = SessionState {
        pending_stop: true,
        cancelled: true,
        ..Default::default()
    };

    let id = begin_session_state(
        &mut state,
        1_000,
        Some(7),
        Some("Terminal (com.apple.Terminal)".into()),
    )
    .unwrap();

    assert_eq!(state.phase, SessionPhase::Starting);
    assert!(!state.pending_stop);
    assert!(!state.cancelled);
    assert_eq!(state.focus_target, Some(7));
    assert_eq!(
        state.front_app.as_deref(),
        Some("Terminal (com.apple.Terminal)")
    );
    assert_eq!(state.session_id, id);
    assert_ne!(id, initial_session_id());
}

#[test]
fn coordinator_state_begin_session_ignores_non_idle_phase() {
    let mut state = SessionState {
        phase: SessionPhase::Processing,
        session_id: session_id(99),
        ..Default::default()
    };

    assert!(begin_session_state(&mut state, 1_000, Some(1), Some("Mail".into())).is_none());

    assert_eq!(state.phase, SessionPhase::Processing);
    assert_eq!(state.session_id, session_id(99));
    assert!(state.focus_target.is_none());
    assert!(state.front_app.is_none());
}

#[test]
fn stop_during_starting_sets_pending_stop_only_for_starting() {
    let mut state = SessionState {
        phase: SessionPhase::Starting,
        ..Default::default()
    };

    assert!(request_stop_during_starting_state(&mut state));
    assert!(state.pending_stop);

    state.phase = SessionPhase::Listening;
    state.pending_stop = false;
    assert!(!request_stop_during_starting_state(&mut state));
    assert!(!state.pending_stop);
}

#[test]
fn finish_starting_is_table_driven_for_pending_cancel_and_stale_edges() {
    let cases = [
        (
            SessionPhase::Starting,
            false,
            false,
            session_id(7),
            BeginOutcome::Started,
            SessionPhase::Listening,
        ),
        (
            SessionPhase::Starting,
            false,
            true,
            session_id(7),
            BeginOutcome::PendingStop,
            SessionPhase::Listening,
        ),
        (
            SessionPhase::Starting,
            true,
            false,
            session_id(7),
            BeginOutcome::CancelRaced,
            SessionPhase::Starting,
        ),
        (
            SessionPhase::Idle,
            false,
            false,
            session_id(7),
            BeginOutcome::CancelRaced,
            SessionPhase::Idle,
        ),
        (
            SessionPhase::Starting,
            false,
            false,
            session_id(8),
            BeginOutcome::StaleContinuation,
            SessionPhase::Starting,
        ),
    ];

    for (phase, cancelled, pending_stop, actual_id, expected, expected_phase) in cases {
        let mut state = SessionState {
            phase,
            cancelled,
            pending_stop,
            session_id: actual_id,
            ..Default::default()
        };

        assert_eq!(
            finish_starting_session_state(&mut state, session_id(7)),
            expected,
            "phase={phase:?} cancelled={cancelled} pending_stop={pending_stop} actual_id={actual_id:?}"
        );
        assert_eq!(state.phase, expected_phase);
        if expected == BeginOutcome::PendingStop {
            assert!(!state.pending_stop);
        }
    }
}

#[test]
fn coordinator_state_cancel_session_state_machine_is_table_driven() {
    let cases = [
        (SessionPhase::Idle, SessionPhase::Idle, false),
        (SessionPhase::Starting, SessionPhase::Idle, true),
        (SessionPhase::Listening, SessionPhase::Idle, true),
        (SessionPhase::Processing, SessionPhase::Processing, true),
        (SessionPhase::Inserting, SessionPhase::Inserting, false),
    ];

    for (initial, expected_phase, expected_cancelled) in cases {
        let mut state = SessionState {
            phase: initial,
            cancelled: false,
            focus_target: Some(1),
            session_id: session_id(42),
            ..Default::default()
        };

        if let Some(decision) = begin_cancel_session_state(&mut state) {
            finish_cancel_session_state(&mut state, decision);
        }

        assert_eq!(state.phase, expected_phase, "initial={initial:?}");
        assert_eq!(state.cancelled, expected_cancelled, "initial={initial:?}");
        if expected_cancelled {
            assert!(
                state.focus_target.is_none(),
                "focus_target should clear after cancel, initial={initial:?}"
            );
        } else {
            assert_eq!(
                state.focus_target,
                Some(1),
                "rejected cancel must not touch focus_target, initial={initial:?}"
            );
        }
    }
}

#[test]
fn finish_cancelled_processing_state_returns_idle_for_matching_session() {
    let mut state = SessionState {
        phase: SessionPhase::Processing,
        cancelled: true,
        focus_target: Some(1),
        session_id: session_id(42),
        ..Default::default()
    };

    assert!(finish_cancelled_processing_state(
        &mut state,
        session_id(42)
    ));
    assert_eq!(state.phase, SessionPhase::Idle);
    assert!(state.focus_target.is_none());
}

#[test]
fn finish_cancelled_processing_state_rejects_stale_session() {
    let mut state = SessionState {
        phase: SessionPhase::Processing,
        cancelled: true,
        focus_target: Some(1),
        session_id: session_id(42),
        ..Default::default()
    };

    assert!(!finish_cancelled_processing_state(
        &mut state,
        session_id(41)
    ));
    assert_eq!(state.phase, SessionPhase::Processing);
    assert_eq!(state.focus_target, Some(1));
}

#[test]
fn stop_dictation_from_listening_enters_processing_once() {
    let mut state = SessionState {
        phase: SessionPhase::Listening,
        session_id: session_id(123),
        ..Default::default()
    };

    assert_eq!(
        start_processing_if_listening(&mut state),
        Some(session_id(123))
    );
    assert_eq!(state.phase, SessionPhase::Processing);
    assert_eq!(start_processing_if_listening(&mut state), None);
    assert_eq!(state.phase, SessionPhase::Processing);
}

#[test]
fn coordinator_state_startup_race_check_is_table_driven_for_begin_session_edges() {
    let cases = [
        (
            SessionPhase::Starting,
            false,
            session_id(7),
            StartupRaceStatus::ActiveStarting,
        ),
        (
            SessionPhase::Starting,
            true,
            session_id(7),
            StartupRaceStatus::CancelRaced,
        ),
        (
            SessionPhase::Idle,
            false,
            session_id(7),
            StartupRaceStatus::CancelRaced,
        ),
        (
            SessionPhase::Listening,
            false,
            session_id(7),
            StartupRaceStatus::CancelRaced,
        ),
        (
            SessionPhase::Starting,
            false,
            session_id(8),
            StartupRaceStatus::StaleContinuation,
        ),
    ];

    for (phase, cancelled, actual_session_id, expected) in cases {
        let state = SessionState {
            phase,
            cancelled,
            session_id: actual_session_id,
            ..Default::default()
        };

        assert_eq!(
            startup_race_status(&state, session_id(7)),
            expected,
            "phase={phase:?} cancelled={cancelled} actual_session={actual_session_id:?}"
        );
    }
}

#[test]
fn recording_abort_keeps_session_non_idle_until_restore_can_run() {
    let mut state = SessionState {
        phase: SessionPhase::Listening,
        cancelled: false,
        session_id: session_id(7),
        ..Default::default()
    };

    let abort = begin_recording_abort_before_restore(&mut state, 5_000_000).unwrap();

    assert_eq!(abort.session_id, session_id(7));
    assert!(state.cancelled);
    assert_eq!(state.phase, SessionPhase::Listening);

    publish_abort_idle_after_restore(&mut state, abort.session_id);

    assert_eq!(state.phase, SessionPhase::Idle);
}

#[test]
fn recording_abort_is_noop_after_prior_cancel_or_idle() {
    let cases = [
        (SessionPhase::Idle, false),
        (SessionPhase::Processing, false),
        (SessionPhase::Listening, true),
    ];

    for (phase, cancelled) in cases {
        let mut state = SessionState {
            phase,
            cancelled,
            ..Default::default()
        };

        assert!(begin_recording_abort_before_restore(&mut state, 5_000_000).is_none());
        assert_eq!(state.phase, phase);
        assert_eq!(state.cancelled, cancelled);
    }
}

#[test]
fn session_ids_are_written_with_hyphens() {
    assert_eq!(session_id(0).to_text(), "00000000-0000-0000-0000-000000000000");
    assert_eq!(
        session_id(0x0123_4567_89ab_cdef_0123_4567_89ab_cdef).to_text(),
        "01234567-89ab-cdef-0123-456789abcdef"
    );
    assert_eq!(initial_session_id(), session_id(0));
}

#[test]
fn new_session_ids_are_random_and_never_the_initial_one() {
    let first = new_session_id();
    let second = new_session_id();
    assert_ne!(first, initial_session_id());
    assert_ne!(first, second);
    let text = first.to_text();
    assert_eq!(text.len(), 36);
    assert_eq!(&text[14..15], "4");
    assert!(matches!(&text[19..20], "8" | "9" | "a" | "b"));
}

#[test]
fn aborted_recording_tells_how_long_it_ran() {
    let mut state = SessionState {
        phase: SessionPhase::Listening,
        started_at: 1_000_000,
        session_id: session_id(7),
        ..Default::default()
    };
    let abort = begin_recording_abort_before_restore(&mut state, 43_999_999).unwrap();
    assert_eq!(abort.elapsed, 42);
}

#[test]
fn time_before_the_start_counts_as_nothing() {
    assert_eq!(millis_between(2_000_000, 5_500_000), 3);
    assert_eq!(millis_between(5_000_000, 2_000_000), 0);
}
