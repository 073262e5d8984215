//! The event protocol: one explicit sum type per nesting level.
//!
//! Every level that the producer may extend carries an `Other` variant, so that a kind this
//! library does not know is a value of the type and never a decoding failure.

use vstd::prelude::*;

verus! {

/// How one command of an action was carried out.
#[derive(Clone, Copy, Debug, PartialEq, Eq)]
pub enum CommandKind {
    /// The command ran on this machine.
    Local,
    /// The command ran on a remote executor.
    Remote,
    /// The result came from the action cache.
    Cached,
    /// The result came from the remote dep-file cache.
    RemoteDepFileCached,
}

/// The fact carried by the end of an action-execution span.
#[derive(Clone, Debug, PartialEq, Eq)]
pub struct ActionExecutionEnd {
    /// The commands that the action ran, in order. An action may run none.
    pub commands: Vec<CommandKind>,
    /// Wall-clock duration of the action, in microseconds.
    pub wall_time_us: u64,
}

/// Payload of a span end.
#[derive(Clone, Debug, PartialEq, Eq)]
pub enum SpanEndData {
    ActionExecution(ActionExecutionEnd),
    /// Any span kind that has no projection here.
    Other,
}

/// End of a span. A well-formed producer always fills in `data`.
#[derive(Clone, Debug, PartialEq, Eq)]
pub struct SpanEndEvent {
    pub data: Option<SpanEndData>,
}

/// A remote-execution session was created.
#[derive(Clone, Debug, PartialEq, Eq)]
pub struct ReSession {
    pub session_id: String,
}

/// A periodic resource snapshot of the daemon.
#[derive(Clone, Copy, Debug, PartialEq, Eq)]
pub struct Snapshot {
    pub buck2_rss: u64,
    pub buck2_user_cpu_us: u64,
    pub buck2_system_cpu_us: u64,
    pub re_download_bytes: u64,
    pub re_upload_bytes: u64,
}

/// Descriptor of a test session.
#[derive(Clone, Debug, PartialEq, Eq)]
pub struct TestSessionInfo {
    pub info: String,
}

/// A batch of discovered tests.
#[derive(Clone, Debug, PartialEq, Eq)]
pub struct TestSuite {
    pub test_names: Vec<String>,
}

/// Payload of a test-discovery fact.
#[derive(Clone, Debug, PartialEq, Eq)]
pub enum TestDiscoveryData {
    Session(TestSessionInfo),
    Tests(TestSuite),
}

/// A test-discovery fact. A well-formed producer always fills in `data`.
#[derive(Clone, Debug, PartialEq, Eq)]
pub struct TestDiscovery {
    pub data: Option<TestDiscoveryData>,
}

/// The outcome of one test, with the status as the producer numbered it.
#[derive(Clone, Debug, PartialEq, Eq)]
pub struct TestResult {
    pub name: String,
    pub status: i32,
}

/// One evaluation that the debugger currently holds stopped.
#[derive(Clone, Debug, PartialEq, Eq)]
pub struct DebugHandle {
    pub id: u64,
    /// One-line description of where the evaluation stopped.
    pub stopped_at: String,
}

/// The debugger's view of all stopped evaluations.
#[derive(Clone, Debug, PartialEq, Eq)]
pub struct DebugAdapterSnapshot {
    pub handles: Vec<DebugHandle>,
}

/// A free-form set of tags.
#[derive(Clone, Debug, PartialEq, Eq)]
pub struct TagEvent {
    pub tags: Vec<String>,
}

/// Progress of one kind of key in the incremental engine.
#[derive(Clone, Copy, Debug, PartialEq, Eq)]
pub struct DiceKeyState {
    pub started: u32,
    pub finished: u32,
}

/// Progress reported for one named kind of key.
#[derive(Clone, Debug, PartialEq, Eq)]
pub struct DiceKeyEntry {
    pub key: String,
    pub state: DiceKeyState,
}

/// A snapshot of the incremental engine, one entry per kind of key that it reports.
#[derive(Clone, Debug, PartialEq, Eq)]
pub struct DiceStateSnapshot {
    pub key_states: Vec<DiceKeyEntry>,
}

/// Payload of an instant event.
#[derive(Clone, Debug, PartialEq, Eq)]
pub enum InstantData {
    ReSession(ReSession),
    Snapshot(Snapshot),
    TestDiscovery(TestDiscovery),
    TestResult(TestResult),
    DebugAdapterSnapshot(DebugAdapterSnapshot),
    TagEvent(TagEvent),
    DiceStateSnapshot(DiceStateSnapshot),
    /// Any instant kind that has no projection here.
    Other,
}

/// A fact without duration. A well-formed producer always fills in `data`.
#[derive(Clone, Debug, PartialEq, Eq)]
pub struct InstantEvent {
    pub data: Option<InstantData>,
}

/// Top-level kind of an event.
#[derive(Clone, Debug, PartialEq, Eq)]
pub enum EventData {
    SpanStart,
    SpanEnd(SpanEndEvent),
    Instant(InstantEvent),
    /// Any top-level kind that has no projection here.
    Other,
}

/// One unit of the event stream.
#[derive(Clone, Debug, PartialEq, Eq)]
pub struct Event {
    /// Logical timestamp assigned by the producer, in microseconds since the epoch.
    pub timestamp: u64,
    /// The span that this event starts or ends, or inside which it happened.
    pub span_id: Option<u64>,
    /// The span enclosing `span_id`, if any.
    pub parent_id: Option<u64>,
    pub data: EventData,
}

impl Event {
    /// The payload of the instant fact that this event carries, if it is one and has a payload.
    pub open spec fn instant_data(&self) -> Option<InstantData> {
        match self.data {
            EventData::Instant(instant) => instant.data,
            _ => None,
        }
    }

    /// The payload of the span end that this event carries, if it is one and has a payload.
    pub open spec fn span_end_data(&self) -> Option<SpanEndData> {
        match self.data {
            EventData::SpanEnd(end) => end.data,
            _ => None,
        }
    }
}

} // verus!
