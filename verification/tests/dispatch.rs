use event_observer::event::{
    ActionExecutionEnd, CommandKind, DebugAdapterSnapshot, DebugHandle, DiceKeyEntry,
    DiceKeyState, DiceStateSnapshot, Event, EventData, InstantData, InstantEvent, ReSession,
    Snapshot, SpanEndData, SpanEndEvent, TagEvent, TestDiscovery, TestDiscoveryData, TestResult,
    TestSessionInfo, TestSuite,
};
use event_observer::observer::{EventObserver, NoopEventObserverExtra, ObserveError};
use event_observer::session_info::TraceId;
use event_observer::span_tracker::{OpenSpan, SpanError};
use event_observer::starlark_debug::DebuggerError;
use event_observer::test_state::{TestState, TestStateError};

type Plain = EventObserver<NoopEventObserverExtra>;

fn plain_observer() -> Plain {
    EventObserver::new(TraceId { uuid: 0x1234_5678_9abc_def0 })
}

fn instant_of(timestamp: u64, data: InstantData) -> Event {
    Event {
        timestamp,
        span_id: None,
        parent_id: None,
        data: EventData::Instant(InstantEvent { data: Some(data) }),
    }
}

fn span_start(id: u64, parent: Option<u64>) -> Event {
    Event { timestamp: 0, span_id: Some(id), parent_id: parent, data: EventData::SpanStart }
}

fn span_end(id: u64, data: Option<SpanEndData>) -> Event {
    Event {
        timestamp: 0,
        span_id: Some(id),
        parent_id: None,
        data: EventData::SpanEnd(SpanEndEvent { data }),
    }
}

fn action(commands: &[CommandKind]) -> SpanEndData {
    SpanEndData::ActionExecution(ActionExecutionEnd {
        commands: commands.to_vec(),
        wall_time_us: 250,
    })
}

fn resources(rss: u64, download: u64) -> Snapshot {
    Snapshot {
        buck2_rss: rss,
        buck2_user_cpu_us: 1,
        buck2_system_cpu_us: 2,
        re_download_bytes: download,
        re_upload_bytes: 3,
    }
}

fn tests_fact(names: &[&str]) -> Event {
    instant_of(
        0,
        InstantData::TestDiscovery(TestDiscovery {
            data: Some(TestDiscoveryData::Tests(TestSuite {
                test_names: names.iter().map(|n| n.to_string()).collect(),
            })),
        }),
    )
}

fn tags_fact(tags: &[&str]) -> Event {
    instant_of(
        0,
        InstantData::TagEvent(TagEvent { tags: tags.iter().map(|t| t.to_string()).collect() }),
    )
}

fn result_fact(status: i32) -> Event {
    instant_of(0, InstantData::TestResult(TestResult { name: "t".to_string(), status }))
}

fn handle(id: u64, stopped_at: &str) -> DebugHandle {
    DebugHandle { id, stopped_at: stopped_at.to_string() }
}

#[test]
fn new_observer_is_empty() {
    let observer = plain_observer();
    assert!(observer.spans().open_spans().is_empty());
    assert_eq!(observer.action_stats().local_actions, 0);
    assert_eq!(observer.action_stats().remote_actions, 0);
    assert_eq!(observer.action_stats().cached_actions, 0);
    assert_eq!(observer.action_stats().fallback_actions, 0);
    assert_eq!(observer.action_stats().remote_dep_file_cached_actions, 0);
    assert_eq!(observer.re_state().session_id, None);
    assert_eq!(observer.re_state().first_snapshot, None);
    assert_eq!(observer.re_state().last_snapshot, None);
    assert_eq!(observer.two_snapshots().count(), 0);
    assert_eq!(observer.session_info().trace_id, TraceId { uuid: 0x1234_5678_9abc_def0 });
    assert_eq!(observer.session_info().test_session, None);
    assert!(!observer.session_info().modern_dice);
    assert_eq!(*observer.test_state(), TestState::new());
    assert!(!observer.starlark_debugger_state().debugger_attached);
    assert!(observer.starlark_debugger_state().stopped_evaluations.is_empty());
    assert_eq!(observer.starlark_debugger_state().last_update, None);
}

#[test]
fn span_start_opens_and_span_end_closes() {
    let mut observer = plain_observer();
    assert_eq!(observer.observe(100, &span_start(1, None)), Ok(()));
    assert_eq!(observer.observe(110, &span_start(2, Some(1))), Ok(()));
    assert_eq!(
        *observer.spans().open_spans(),
        vec![
            OpenSpan { id: 1, parent: None, started_at: 100 },
            OpenSpan { id: 2, parent: Some(1), started_at: 110 },
        ]
    );
    assert_eq!(observer.observe(120, &span_end(1, Some(SpanEndData::Other))), Ok(()));
    assert_eq!(*observer.spans().open_spans(), vec![OpenSpan { id: 2, parent: Some(1), started_at: 110 }]);
}

#[test]
fn action_end_counts_by_kind() {
    let mut observer = plain_observer();
    let actions: [&[CommandKind]; 6] = [
        &[CommandKind::Remote, CommandKind::Local],
        &[CommandKind::Local],
        &[CommandKind::Cached, CommandKind::Remote],
        &[CommandKind::Cached],
        &[CommandKind::RemoteDepFileCached],
        &[],
    ];
    for (i, commands) in actions.iter().enumerate() {
        let id = i as u64;
        assert_eq!(observer.observe(0, &span_start(id, None)), Ok(()));
        assert_eq!(observer.observe(1, &span_end(id, Some(action(commands)))), Ok(()));
    }
    let stats = observer.action_stats();
    assert_eq!(stats.local_actions, 2);
    assert_eq!(stats.remote_actions, 1);
    assert_eq!(stats.cached_actions, 1);
    assert_eq!(stats.remote_dep_file_cached_actions, 1);
    assert_eq!(stats.fallback_actions, 1);
    assert!(observer.spans().open_spans().is_empty());
}

#[test]
fn span_end_without_payload_fails_after_closing_the_span() {
    let mut observer = plain_observer();
    assert_eq!(observer.observe(0, &span_start(9, None)), Ok(()));
    assert_eq!(observer.observe(1, &span_end(9, None)), Err(ObserveError::MissingSpanEndData));
    assert!(observer.spans().open_spans().is_empty());
    assert_eq!(observer.action_stats().local_actions, 0);
}

#[test]
fn span_protocol_violations_are_reported() {
    let mut observer = plain_observer();
    let nameless = Event { timestamp: 0, span_id: None, parent_id: None, data: EventData::SpanStart };
    assert_eq!(observer.observe(0, &nameless), Err(ObserveError::Span(SpanError::MissingSpanId)));
    assert_eq!(observer.observe(0, &span_start(4, None)), Ok(()));
    assert_eq!(
        observer.observe(1, &span_start(4, None)),
        Err(ObserveError::Span(SpanError::AlreadyOpen(4)))
    );
    assert_eq!(
        observer.observe(2, &span_end(5, Some(action(&[CommandKind::Local])))),
        Err(ObserveError::Span(SpanError::NotOpen(5)))
    );
    // The rejected end did not reach the statistics.
    assert_eq!(observer.action_stats().local_actions, 0);
    assert_eq!(*observer.spans().open_spans(), vec![OpenSpan { id: 4, parent: None, started_at: 0 }]);
    assert_eq!(observer.observe(3, &span_end(4, Some(SpanEndData::Other))), Ok(()));
    assert_eq!(
        observer.observe(4, &span_end(4, Some(SpanEndData::Other))),
        Err(ObserveError::Span(SpanError::NotOpen(4)))
    );
}

#[test]
fn instant_without_payload_fails_and_changes_nothing() {
    let mut observer = plain_observer();
    assert_eq!(observer.observe(0, &span_start(1, None)), Ok(()));
    assert_eq!(observer.observe(0, &tests_fact(&["a"])), Ok(()));
    let empty = Event {
        timestamp: 5,
        span_id: Some(1),
        parent_id: None,
        data: EventData::Instant(InstantEvent { data: None }),
    };
    assert_eq!(observer.observe(1, &empty), Err(ObserveError::MissingInstantData));
    assert_eq!(*observer.spans().open_spans(), vec![OpenSpan { id: 1, parent: None, started_at: 0 }]);
    assert_eq!(observer.test_state().discovered, 1);
    assert_eq!(observer.two_snapshots().count(), 0);
    assert_eq!(observer.re_state().session_id, None);
    assert!(!observer.session_info().modern_dice);
}

#[test]
fn re_session_is_recorded() {
    let mut observer = plain_observer();
    let event = instant_of(0, InstantData::ReSession(ReSession { session_id: "re-1".to_string() }));
    assert_eq!(observer.observe(0, &event), Ok(()));
    assert_eq!(observer.re_state().session_id, Some("re-1".to_string()));
    let event = instant_of(0, InstantData::ReSession(ReSession { session_id: "re-2".to_string() }));
    assert_eq!(observer.observe(0, &event), Ok(()));
    assert_eq!(observer.re_state().session_id, Some("re-2".to_string()));
}

#[test]
fn snapshot_reaches_re_state_and_buffer() {
    let mut observer = plain_observer();
    assert_eq!(observer.observe(0, &instant_of(50, InstantData::Snapshot(resources(1, 10)))), Ok(()));
    assert_eq!(observer.observe(1, &instant_of(40, InstantData::Snapshot(resources(2, 20)))), Ok(()));
    assert_eq!(observer.re_state().first_snapshot, Some(resources(1, 10)));
    assert_eq!(observer.re_state().last_snapshot, Some(resources(2, 20)));
    assert_eq!(observer.two_snapshots().penultimate_snapshot, Some((50, resources(1, 10))));
    assert_eq!(observer.two_snapshots().last_snapshot, Some((40, resources(2, 20))));
}

#[test]
fn three_snapshots_leave_the_latest_two() {
    let mut observer = plain_observer();
    // The logical timestamps run backwards: the buffer goes by arrival.
    assert_eq!(observer.observe(0, &instant_of(900, InstantData::Snapshot(resources(1, 1)))), Ok(()));
    assert_eq!(observer.observe(1, &instant_of(500, InstantData::Snapshot(resources(2, 2)))), Ok(()));
    assert_eq!(observer.observe(2, &instant_of(100, InstantData::Snapshot(resources(3, 3)))), Ok(()));
    assert_eq!(observer.two_snapshots().count(), 2);
    assert_eq!(observer.two_snapshots().penultimate_snapshot, Some((500, resources(2, 2))));
    assert_eq!(observer.two_snapshots().last_snapshot, Some((100, resources(3, 3))));
    assert_eq!(observer.re_state().first_snapshot, Some(resources(1, 1)));
}

#[test]
fn discovered_tests_add_up() {
    let mut observer = plain_observer();
    assert_eq!(observer.observe(0, &tests_fact(&["a", "b", "c"])), Ok(()));
    assert_eq!(observer.test_state().discovered, 3);
    assert_eq!(observer.observe(1, &tests_fact(&["d", "e"])), Ok(()));
    assert_eq!(observer.test_state().discovered, 5);
    assert_eq!(observer.observe(2, &tests_fact(&[])), Ok(()));
    assert_eq!(observer.test_state().discovered, 5);
    // Other events leave the count alone.
    assert_eq!(observer.observe(3, &result_fact(1)), Ok(()));
    assert_eq!(observer.observe(4, &tags_fact(&["x"])), Ok(()));
    assert_eq!(observer.test_state().discovered, 5);
}

#[test]
fn test_session_is_overwritten_by_the_latest() {
    let mut observer = plain_observer();
    let session = |info: &str| {
        instant_of(
            0,
            InstantData::TestDiscovery(TestDiscovery {
                data: Some(TestDiscoveryData::Session(TestSessionInfo { info: info.to_string() })),
            }),
        )
    };
    assert_eq!(observer.observe(0, &session("first")), Ok(()));
    assert_eq!(
        observer.session_info().test_session,
        Some(TestSessionInfo { info: "first".to_string() })
    );
    assert_eq!(observer.observe(1, &session("second")), Ok(()));
    assert_eq!(
        observer.session_info().test_session,
        Some(TestSessionInfo { info: "second".to_string() })
    );
    assert_eq!(observer.test_state().discovered, 0);
}

#[test]
fn test_discovery_without_payload_fails() {
    let mut observer = plain_observer();
    let event = instant_of(0, InstantData::TestDiscovery(TestDiscovery { data: None }));
    assert_eq!(observer.observe(0, &event), Err(ObserveError::MissingTestDiscoveryData));
    assert_eq!(observer.test_state().discovered, 0);
    assert_eq!(observer.session_info().test_session, None);
}

#[test]
fn test_results_count_by_status() {
    let mut observer = plain_observer();
    for status in 1..=10 {
        assert_eq!(observer.observe(0, &result_fact(status)), Ok(()));
    }
    assert_eq!(observer.observe(0, &result_fact(2)), Ok(()));
    let expected = TestState {
        discovered: 0,
        pass: 1,
        fail: 2,
        skipped: 1,
        omitted: 1,
        fatal: 1,
        timeout: 1,
        unknown: 1,
        rerun: 1,
        listing_success: 1,
        listing_failed: 1,
    };
    assert_eq!(*observer.test_state(), expected);
}

#[test]
fn test_result_with_unknown_status_is_rejected() {
    let mut observer = plain_observer();
    assert_eq!(observer.observe(0, &result_fact(1)), Ok(()));
    for status in [0, 11, -1, i32::MAX, i32::MIN] {
        assert_eq!(
            observer.observe(0, &result_fact(status)),
            Err(ObserveError::TestState(TestStateError::InvalidStatus(status)))
        );
    }
    let mut expected = TestState::new();
    expected.pass = 1;
    assert_eq!(*observer.test_state(), expected);
}

#[test]
fn debugger_snapshot_replaces_the_state() {
    let mut observer = plain_observer();
    let first = instant_of(
        70,
        InstantData::DebugAdapterSnapshot(DebugAdapterSnapshot {
            handles: vec![handle(1, "a.bzl:3"), handle(2, "b.bzl:9")],
        }),
    );
    assert_eq!(observer.observe(0, &first), Ok(()));
    let state = observer.starlark_debugger_state();
    assert!(state.debugger_attached);
    assert_eq!(state.stopped_evaluations, vec!["a.bzl:3".to_string(), "b.bzl:9".to_string()]);
    assert_eq!(state.last_update, Some(70));

    let second =
        instant_of(60, InstantData::DebugAdapterSnapshot(DebugAdapterSnapshot { handles: vec![] }));
    assert_eq!(observer.observe(1, &second), Ok(()));
    let state = observer.starlark_debugger_state();
    assert!(state.debugger_attached);
    assert!(state.stopped_evaluations.is_empty());
    assert_eq!(state.last_update, Some(60));
}

#[test]
fn debugger_snapshot_with_repeated_handle_is_rejected() {
    let mut observer = plain_observer();
    let good = instant_of(
        1,
        InstantData::DebugAdapterSnapshot(DebugAdapterSnapshot { handles: vec![handle(1, "x")] }),
    );
    assert_eq!(observer.observe(0, &good), Ok(()));
    let bad = instant_of(
        2,
        InstantData::DebugAdapterSnapshot(DebugAdapterSnapshot {
            handles: vec![handle(5, "p"), handle(6, "q"), handle(5, "r")],
        }),
    );
    assert_eq!(
        observer.observe(1, &bad),
        Err(ObserveError::Debugger(DebuggerError::DuplicateHandle))
    );
    let state = observer.starlark_debugger_state();
    assert_eq!(state.stopped_evaluations, vec!["x".to_string()]);
    assert_eq!(state.last_update, Some(1));
}

#[test]
fn marker_tag_sets_the_flag_for_good() {
    let mut observer = plain_observer();
    assert_eq!(observer.observe(0, &tags_fact(&["which-dice:Legacy", "which-dice:modern"])), Ok(()));
    assert!(!observer.session_info().modern_dice);
    assert_eq!(observer.observe(1, &tags_fact(&[])), Ok(()));
    assert!(!observer.session_info().modern_dice);
    assert_eq!(observer.observe(2, &tags_fact(&["a", "which-dice:Modern", "b"])), Ok(()));
    assert!(observer.session_info().modern_dice);
    // Later events, accepted or not, leave it set.
    assert_eq!(observer.observe(3, &tags_fact(&["which-dice:Legacy"])), Ok(()));
    assert_eq!(observer.observe(4, &result_fact(99)).is_err(), true);
    assert_eq!(observer.observe(5, &span_end(77, None)).is_err(), true);
    assert_eq!(observer.observe(6, &tests_fact(&["t"])), Ok(()));
    assert!(observer.session_info().modern_dice);
}

#[test]
fn unknown_kinds_are_accepted_and_change_nothing() {
    let mut observer = plain_observer();
    assert_eq!(observer.observe(0, &span_start(1, None)), Ok(()));
    assert_eq!(observer.observe(1, &tests_fact(&["a", "b"])), Ok(()));
    assert_eq!(observer.observe(2, &instant_of(8, InstantData::Snapshot(resources(5, 5)))), Ok(()));

    let other = Event { timestamp: 9, span_id: Some(1), parent_id: None, data: EventData::Other };
    assert_eq!(observer.observe(3, &other), Ok(()));
    assert_eq!(observer.observe(4, &instant_of(9, InstantData::Other)), Ok(()));
    // The plain observer has no projection for the incremental engine either.
    let dice = instant_of(
        9,
        InstantData::DiceStateSnapshot(DiceStateSnapshot {
            key_states: vec![DiceKeyEntry {
                key: "k".to_string(),
                state: DiceKeyState { started: 1, finished: 0 },
            }],
        }),
    );
    assert_eq!(observer.observe(5, &dice), Ok(()));

    assert_eq!(*observer.spans().open_spans(), vec![OpenSpan { id: 1, parent: None, started_at: 0 }]);
    assert_eq!(observer.test_state().discovered, 2);
    assert_eq!(observer.two_snapshots().last_snapshot, Some((8, resources(5, 5))));
    assert_eq!(observer.two_snapshots().penultimate_snapshot, None);
    assert_eq!(observer.re_state().last_snapshot, Some(resources(5, 5)));
    assert_eq!(observer.action_stats().local_actions, 0);
    assert!(!observer.session_info().modern_dice);
    assert!(!observer.starlark_debugger_state().debugger_attached);
}

#[test]
fn trace_id_never_changes() {
    let mut observer = plain_observer();
    let id = observer.session_info().trace_id;
    assert_eq!(observer.observe(0, &tags_fact(&["which-dice:Modern"])), Ok(()));
    assert_eq!(observer.observe(1, &tests_fact(&["a"])), Ok(()));
    assert_eq!(observer.observe(2, &span_end(3, None)).is_err(), true);
    assert_eq!(observer.session_info().trace_id, id);
}

#[test]
fn can_observe_tells_when_a_counter_is_full() {
    let mut observer = plain_observer();
    observer.action_stats.local_actions = u64::MAX;
    assert_eq!(observer.observe(0, &span_start(1, None)), Ok(()));
    assert!(!observer.can_observe(1, &span_end(1, Some(action(&[CommandKind::Local])))));
    assert!(observer.can_observe(1, &span_end(1, Some(action(&[CommandKind::Remote])))));
    // An end that the spans reject never reaches the counter.
    assert!(observer.can_observe(1, &span_end(2, Some(action(&[CommandKind::Local])))));
    assert!(observer.can_observe(1, &tests_fact(&["a", "b"])));
    assert!(observer.can_observe(1, &result_fact(1)));
    assert!(observer.can_observe(1, &result_fact(0)));
}

#[test]
fn error_messages() {
    assert_eq!(ObserveError::MissingSpanEndData.message(), "Missing `data` in SpanEnd");
    assert_eq!(ObserveError::MissingInstantData.message(), "Missing `data` in `Instant`");
    assert_eq!(
        ObserveError::MissingTestDiscoveryData.message(),
        "Missing `data` in `TestDiscovery`"
    );
    assert_eq!(
        ObserveError::Span(SpanError::MissingSpanId).message(),
        "Span event without a span id"
    );
    assert_eq!(
        ObserveError::Span(SpanError::AlreadyOpen(1)).message(),
        "Started a span that is already open"
    );
    assert_eq!(ObserveError::Span(SpanError::NotOpen(1)).message(), "Ended a span that is not open");
    assert_eq!(
        ObserveError::TestState(TestStateError::InvalidStatus(0)).message(),
        "Invalid test status"
    );
    assert_eq!(
        ObserveError::Debugger(DebuggerError::DuplicateHandle).message(),
        "Debugger snapshot with a repeated handle"
    );
}
