use event_observer::event::{
    ActionExecutionEnd, CommandKind, Event, EventData, InstantData, InstantEvent, Snapshot,
    SpanEndData, SpanEndEvent, TestDiscovery, TestDiscoveryData, TestSuite,
};
use event_observer::observer::{EventObserver, NoopEventObserverExtra};
use event_observer::session_info::TraceId;

fn instant(timestamp: u64, data: InstantData) -> Event {
    Event {
        timestamp,
        span_id: None,
        parent_id: None,
        data: EventData::Instant(InstantEvent { data: Some(data) }),
    }
}

fn snapshot(rss: u64) -> Snapshot {
    Snapshot {
        buck2_rss: rss,
        buck2_user_cpu_us: 0,
        buck2_system_cpu_us: 0,
        re_download_bytes: 0,
        re_upload_bytes: 0,
    }
}

#[test]
fn one_action_one_snapshot_two_tests() {
    let mut observer = EventObserver::<NoopEventObserverExtra>::new(TraceId { uuid: 7 });
    let start = Event { timestamp: 10, span_id: Some(1), parent_id: None, data: EventData::SpanStart };
    let end = Event {
        timestamp: 20,
        span_id: Some(1),
        parent_id: None,
        data: EventData::SpanEnd(SpanEndEvent {
            data: Some(SpanEndData::ActionExecution(ActionExecutionEnd {
                commands: vec![CommandKind::Local],
                wall_time_us: 1500,
            })),
        }),
    };
    let resources = instant(30, InstantData::Snapshot(snapshot(4096)));
    let tests = instant(
        40,
        InstantData::TestDiscovery(TestDiscovery {
            data: Some(TestDiscoveryData::Tests(TestSuite {
                test_names: vec!["a".to_string(), "b".to_string()],
            })),
        }),
    );
    assert_eq!(observer.observe(1, &start), Ok(()));
    assert_eq!(observer.spans().open_spans().len(), 1);
    assert_eq!(observer.observe(2, &end), Ok(()));
    assert_eq!(observer.observe(3, &resources), Ok(()));
    assert_eq!(observer.observe(4, &tests), Ok(()));

    assert_eq!(observer.spans().open_spans().len(), 0);
    assert_eq!(observer.action_stats().local_actions, 1);
    assert_eq!(observer.action_stats().remote_actions, 0);
    assert_eq!(observer.action_stats().cached_actions, 0);
    assert_eq!(observer.action_stats().fallback_actions, 0);
    assert_eq!(observer.two_snapshots().count(), 1);
    assert_eq!(observer.two_snapshots().last_snapshot, Some((30, snapshot(4096))));
    assert_eq!(observer.two_snapshots().penultimate_snapshot, None);
    assert_eq!(observer.test_state().discovered, 2);
}
