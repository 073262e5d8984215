use event_observer::action_stats::{last_command_of, was_fallback, ActionStats};
use event_observer::dice_state::DiceState;
use event_observer::event::{
    ActionExecutionEnd, CommandKind, DebugAdapterSnapshot, DebugHandle, DiceKeyEntry,
    DiceKeyState, DiceStateSnapshot, Event, EventData, ReSession, Snapshot, SpanEndData,
    SpanEndEvent, TestResult,
};
use event_observer::re_state::ReState;
use event_observer::session_info::{SessionInfo, TraceId};
use event_observer::span_tracker::{OpenSpan, SpanError, SpanTracker};
use event_observer::starlark_debug::{has_distinct_handles, DebuggerError, StarlarkDebuggerState};
use event_observer::test_state::{TestState, TestStateError, TestStatus};
use event_observer::two_snapshots::TwoSnapshots;

fn shot(n: u64) -> Snapshot {
    Snapshot {
        buck2_rss: n,
        buck2_user_cpu_us: n + 1,
        buck2_system_cpu_us: n + 2,
        re_download_bytes: n + 3,
        re_upload_bytes: n + 4,
    }
}

fn ran(commands: &[CommandKind]) -> ActionExecutionEnd {
    ActionExecutionEnd { commands: commands.to_vec(), wall_time_us: 0 }
}

#[test]
fn last_command_and_fallback() {
    let local = CommandKind::Local;
    let remote = CommandKind::Remote;
    let cached = CommandKind::Cached;
    let dep_file = CommandKind::RemoteDepFileCached;

    assert_eq!(last_command_of(&ran(&[])), None);
    assert_eq!(last_command_of(&ran(&[local])), Some(local));
    assert_eq!(last_command_of(&ran(&[local, remote])), Some(remote));
    assert_eq!(last_command_of(&ran(&[remote, cached, dep_file])), Some(dep_file));

    assert!(!was_fallback(&ran(&[])));
    assert!(!was_fallback(&ran(&[local])));
    assert!(!was_fallback(&ran(&[remote])));
    assert!(!was_fallback(&ran(&[local, local])));
    assert!(!was_fallback(&ran(&[cached, local])));
    assert!(!was_fallback(&ran(&[local, remote])));
    assert!(!was_fallback(&ran(&[remote, remote])));
    assert!(was_fallback(&ran(&[remote, local])));
    assert!(was_fallback(&ran(&[cached, remote, dep_file, local])));
    assert!(was_fallback(&ran(&[remote, local, local])));
}

#[test]
fn action_stats_update_and_limits() {
    let mut stats = ActionStats::default();
    assert_eq!(stats, ActionStats::new());
    let fallback = ran(&[CommandKind::Remote, CommandKind::Local]);
    assert!(stats.can_update(&fallback));
    stats.update(&fallback);
    assert_eq!(
        stats,
        ActionStats {
            local_actions: 1,
            remote_actions: 0,
            cached_actions: 0,
            fallback_actions: 1,
            remote_dep_file_cached_actions: 0,
        }
    );
    stats.fallback_actions = u64::MAX;
    assert!(!stats.can_update(&fallback));
    let local = ran(&[CommandKind::Local]);
    assert!(stats.can_update(&local));
    stats.local_actions = u64::MAX;
    assert!(!stats.can_update(&local));
    let remote = ran(&[CommandKind::Local, CommandKind::Remote]);
    assert!(stats.can_update(&remote));
    stats.update(&remote);
    assert_eq!(stats.remote_actions, 1);
    let idle = ran(&[]);
    assert!(stats.can_update(&idle));
    stats.update(&idle);
    assert_eq!(stats.local_actions, u64::MAX);
    assert_eq!(stats.remote_actions, 1);
    assert_eq!(stats.cached_actions, 0);
}

#[test]
fn two_snapshots_roll() {
    let mut buffer = TwoSnapshots::default();
    assert_eq!(buffer.count(), 0);
    buffer.update(3, &shot(1));
    assert_eq!(buffer.count(), 1);
    assert_eq!(buffer, TwoSnapshots { penultimate_snapshot: None, last_snapshot: Some((3, shot(1))) });
    buffer.update(2, &shot(2));
    assert_eq!(buffer.count(), 2);
    buffer.update(1, &shot(3));
    assert_eq!(buffer.count(), 2);
    assert_eq!(
        buffer,
        TwoSnapshots {
            penultimate_snapshot: Some((2, shot(2))),
            last_snapshot: Some((1, shot(3))),
        }
    );
}

#[test]
fn re_state_keeps_first_and_last_snapshot() {
    let mut state = ReState::new();
    state.update(&shot(1));
    assert_eq!(state.first_snapshot, Some(shot(1)));
    assert_eq!(state.last_snapshot, Some(shot(1)));
    state.update(&shot(2));
    state.update(&shot(3));
    assert_eq!(state.first_snapshot, Some(shot(1)));
    assert_eq!(state.last_snapshot, Some(shot(3)));
    assert_eq!(state.session_id, None);
    state.add_re_session(&ReSession { session_id: "abc".to_string() });
    assert_eq!(state.session_id, Some("abc".to_string()));
    assert_eq!(state.first_snapshot, Some(shot(1)));
}

#[test]
fn session_info_starts_bare() {
    let info = SessionInfo::new(TraceId { uuid: u128::MAX });
    assert_eq!(info.trace_id.uuid, u128::MAX);
    assert_eq!(info.test_session, None);
    assert!(!info.modern_dice);
}

#[test]
fn test_status_codes() {
    assert_eq!(TestStatus::from_code(0), None);
    assert_eq!(TestStatus::from_code(1), Some(TestStatus::Pass));
    assert_eq!(TestStatus::from_code(2), Some(TestStatus::Fail));
    assert_eq!(TestStatus::from_code(3), Some(TestStatus::Skip));
    assert_eq!(TestStatus::from_code(4), Some(TestStatus::Omitted));
    assert_eq!(TestStatus::from_code(5), Some(TestStatus::Fatal));
    assert_eq!(TestStatus::from_code(6), Some(TestStatus::Timeout));
    assert_eq!(TestStatus::from_code(7), Some(TestStatus::Unknown));
    assert_eq!(TestStatus::from_code(8), Some(TestStatus::Rerun));
    assert_eq!(TestStatus::from_code(9), Some(TestStatus::ListingSuccess));
    assert_eq!(TestStatus::from_code(10), Some(TestStatus::ListingFailed));
    assert_eq!(TestStatus::from_code(11), None);
    assert_eq!(TestStatus::from_code(-1), None);
}

#[test]
fn test_state_update_and_limits() {
    let mut state = TestState::default();
    let failed = TestResult { name: "n".to_string(), status: 2 };
    assert!(state.can_update(&failed));
    assert_eq!(state.update(&failed), Ok(()));
    assert_eq!(state.fail, 1);
    let broken = TestResult { name: "n".to_string(), status: 12 };
    assert!(state.can_update(&broken));
    assert_eq!(state.update(&broken), Err(TestStateError::InvalidStatus(12)));
    assert_eq!(state.fail, 1);
    state.fail = u64::MAX;
    assert!(!state.can_update(&failed));
    assert!(state.can_update(&broken));
    assert!(state.can_update(&TestResult { name: "n".to_string(), status: 1 }));
}

#[test]
fn span_tracker_follows_the_protocol() {
    let mut tracker = SpanTracker::new();
    let start = |id: Option<u64>, parent: Option<u64>| Event {
        timestamp: 0,
        span_id: id,
        parent_id: parent,
        data: EventData::SpanStart,
    };
    let end = |id: Option<u64>| Event {
        timestamp: 0,
        span_id: id,
        parent_id: None,
        data: EventData::SpanEnd(SpanEndEvent { data: Some(SpanEndData::Other) }),
    };
    let other = Event { timestamp: 0, span_id: Some(1), parent_id: None, data: EventData::Other };

    assert!(tracker.accepts(0, &start(Some(1), None)));
    assert!(!tracker.accepts(0, &end(Some(1))));
    assert!(!tracker.accepts(0, &start(None, None)));
    assert!(tracker.accepts(0, &other));

    assert_eq!(tracker.handle_event(5, &start(Some(1), None)), Ok(()));
    assert_eq!(tracker.handle_event(6, &start(Some(2), Some(1))), Ok(()));
    assert_eq!(tracker.handle_event(7, &start(Some(3), Some(1))), Ok(()));
    assert_eq!(tracker.handle_event(8, &other), Ok(()));
    assert_eq!(tracker.position(2), Some(1));
    assert_eq!(tracker.position(9), None);
    assert!(!tracker.accepts(0, &start(Some(2), None)));
    assert!(tracker.accepts(0, &end(Some(2))));

    assert_eq!(tracker.handle_event(9, &start(Some(2), None)), Err(SpanError::AlreadyOpen(2)));
    assert_eq!(tracker.handle_event(9, &end(None)), Err(SpanError::MissingSpanId));
    assert_eq!(tracker.handle_event(9, &start(None, Some(1))), Err(SpanError::MissingSpanId));
    assert_eq!(tracker.handle_event(9, &end(Some(8))), Err(SpanError::NotOpen(8)));
    assert_eq!(tracker.open_spans().len(), 3);

    assert_eq!(tracker.handle_event(10, &end(Some(2))), Ok(()));
    assert_eq!(
        *tracker.open_spans(),
        vec![
            OpenSpan { id: 1, parent: None, started_at: 5 },
            OpenSpan { id: 3, parent: Some(1), started_at: 7 },
        ]
    );
    assert_eq!(tracker.handle_event(11, &end(Some(2))), Err(SpanError::NotOpen(2)));
}

#[test]
fn debugger_state_update() {
    let mut state = StarlarkDebuggerState::new();
    let distinct = DebugAdapterSnapshot {
        handles: vec![
            DebugHandle { id: 3, stopped_at: "third".to_string() },
            DebugHandle { id: 1, stopped_at: "first".to_string() },
        ],
    };
    let repeated = DebugAdapterSnapshot {
        handles: vec![
            DebugHandle { id: 3, stopped_at: "a".to_string() },
            DebugHandle { id: 3, stopped_at: "b".to_string() },
        ],
    };
    assert!(has_distinct_handles(&distinct));
    assert!(!has_distinct_handles(&repeated));
    assert!(has_distinct_handles(&DebugAdapterSnapshot { handles: vec![] }));
    assert_eq!(state.update(11, &repeated), Err(DebuggerError::DuplicateHandle));
    assert!(!state.debugger_attached);
    assert_eq!(state.last_update, None);
    assert_eq!(state.update(12, &distinct), Ok(()));
    assert!(state.debugger_attached);
    assert_eq!(state.stopped_evaluations, vec!["third".to_string(), "first".to_string()]);
    assert_eq!(state.last_update, Some(12));
}

#[test]
fn dice_state_keeps_the_latest_per_key() {
    let mut state = DiceState::new();
    assert_eq!(state.len(), 0);
    let entry = |name: &str, started: u32| DiceKeyEntry {
        key: name.to_string(),
        state: DiceKeyState { started, finished: 0 },
    };
    state.update(&DiceStateSnapshot { key_states: vec![entry("a", 1), entry("b", 2), entry("a", 3)] });
    assert_eq!(state.len(), 2);
    assert_eq!(state.get(&"a".to_string()), Some(DiceKeyState { started: 3, finished: 0 }));
    assert_eq!(state.get(&"b".to_string()), Some(DiceKeyState { started: 2, finished: 0 }));
    state.update(&DiceStateSnapshot { key_states: vec![] });
    assert_eq!(state.len(), 2);
    state.update(&DiceStateSnapshot { key_states: vec![entry("b", 9)] });
    assert_eq!(state.get(&"b".to_string()), Some(DiceKeyState { started: 9, finished: 0 }));
    assert_eq!(state.get(&"a".to_string()), Some(DiceKeyState { started: 3, finished: 0 }));
    assert_eq!(state.get(&"".to_string()), None);
}
