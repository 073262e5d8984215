//! The observer: one owner for all projections of a run, fed one event at a time.

use vstd::prelude::*;
use crate::action_stats::ActionStats;
use crate::counter::raise;
use crate::debug_events::DebugEventsState;
use crate::dice_state::{merged, DiceState};
use crate::event::{
    DiceKeyState,
    Event,
    EventData,
    InstantData,
    SpanEndData,
    TestDiscoveryData,
    TestSessionInfo,
};
use crate::re_state::{ReState, ReStateView};
use crate::session_info::{SessionInfo, SessionInfoView, TraceId};
use crate::span_tracker::{span_step, OpenSpan, SpanError, SpanTracker};
use crate::starlark_debug::{
    has_distinct_handles,
    DebuggerError,
    DebuggerView,
    StarlarkDebuggerState,
};
use crate::test_state::{TestState, TestStateError, TestStatus};
use crate::two_snapshots::TwoSnapshots;

verus! {

/// Why an event was not taken in completely.
#[derive(Clone, Copy, Debug, PartialEq, Eq)]
pub enum ObserveError {
    /// A span end without its payload.
    MissingSpanEndData,
    /// An instant event without its payload.
    MissingInstantData,
    /// A test-discovery fact without its payload.
    MissingTestDiscoveryData,
    /// The event breaks the span protocol.
    Span(SpanError),
    /// The test counters rejected a test result.
    TestState(TestStateError),
    /// The debugger state rejected a snapshot.
    Debugger(DebuggerError),
}

impl ObserveError {
    /// What `message` says of each error.
    pub open spec fn message_text(self) -> Seq<char> {
        match self {
            ObserveError::MissingSpanEndData => "Missing `data` in SpanEnd"@,
            ObserveError::MissingInstantData => "Missing `data` in `Instant`"@,
            ObserveError::MissingTestDiscoveryData => "Missing `data` in `TestDiscovery`"@,
            ObserveError::Span(error) => error.message_text(),
            ObserveError::TestState(error) => error.message_text(),
            ObserveError::Debugger(error) => error.message_text(),
        }
    }

    /// One line that describes the error.
    pub fn message(&self) -> (text: String)
        ensures
            text@ == self.message_text(),
    {
        match self {
            ObserveError::MissingSpanEndData => "Missing `data` in SpanEnd".to_owned(),
            ObserveError::MissingInstantData => "Missing `data` in `Instant`".to_owned(),
            ObserveError::MissingTestDiscoveryData => "Missing `data` in `TestDiscovery`".to_owned(),
            ObserveError::Span(error) => error.message(),
            ObserveError::TestState(error) => error.message(),
            ObserveError::Debugger(error) => error.message(),
        }
    }
}

/// The tag that tells that the run uses the modern incremental engine.
pub open spec fn modern_dice_tag() -> Seq<char> {
    "which-dice:Modern"@
}

/// What one event does to a state: the state that it leaves, and whether it was taken in
/// completely. A state left beside an error holds whatever was applied before the error.
pub struct Step<S> {
    pub state: S,
    pub outcome: Result<(), ObserveError>,
}

/// Mathematical value of the projections that every observer keeps.
pub struct CoreView {
    pub spans: Seq<OpenSpan>,
    pub action_stats: ActionStats,
    pub re_state: ReStateView,
    pub two_snapshots: TwoSnapshots,
    pub session_info: SessionInfoView,
    pub test_state: TestState,
    pub debugger: DebuggerView,
}

/// Mathematical value of an [`EventObserver`]: the projections that every observer keeps, and
/// the value of its extension.
pub struct ObserverView<X> {
    pub core: CoreView,
    pub extra: X,
}

impl CoreView {
    /// The projections at the start of the run `trace_id`.
    pub open spec fn initial(trace_id: TraceId) -> CoreView {
        CoreView {
            spans: Seq::empty(),
            action_stats: ActionStats::empty(),
            re_state: ReStateView::empty(),
            two_snapshots: TwoSnapshots::empty(),
            session_info: SessionInfoView::initial(trace_id),
            test_state: TestState::empty(),
            debugger: DebuggerView::detached(),
        }
    }

    /// What the payload of an instant event with logical timestamp `timestamp` does.
    pub open spec fn instant_step(self, timestamp: u64, data: InstantData) -> Result<
        CoreView,
        ObserveError,
    > {
        match data {
            InstantData::ReSession(session) => Ok(
                CoreView { re_state: self.re_state.with_session(session.session_id@), ..self },
            ),
            InstantData::Snapshot(snapshot) => Ok(
                CoreView {
                    re_state: self.re_state.after(snapshot),
                    two_snapshots: self.two_snapshots.after(timestamp, snapshot),
                    ..self
                },
            ),
            InstantData::TestDiscovery(discovery) => match discovery.data {
                None => Err(ObserveError::MissingTestDiscoveryData),
                Some(TestDiscoveryData::Session(session)) => Ok(
                    CoreView {
                        session_info: self.session_info.with_test_session(session.info@),
                        ..self
                    },
                ),
                Some(TestDiscoveryData::Tests(suite)) => Ok(
                    CoreView {
                        test_state: TestState {
                            discovered: raise(self.test_state.discovered, suite.test_names@.len()),
                            ..self.test_state
                        },
                        ..self
                    },
                ),
            },
            InstantData::TestResult(result) => match self.test_state.step(result.status) {
                Ok(test_state) => Ok(CoreView { test_state, ..self }),
                Err(error) => Err(ObserveError::TestState(error)),
            },
            InstantData::DebugAdapterSnapshot(snapshot) => match self.debugger.step(
                timestamp,
                snapshot,
            ) {
                Ok(debugger) => Ok(CoreView { debugger, ..self }),
                Err(error) => Err(ObserveError::Debugger(error)),
            },
            InstantData::TagEvent(tags) => Ok(
                CoreView {
                    session_info: self.session_info.with_tags(
                        tags.tags.deep_view().contains(modern_dice_tag()),
                    ),
                    ..self
                },
            ),
            _ => Ok(self),
        }
    }

    /// What the payload of `event` does to the projections other than the spans.
    pub open spec fn payload_step(self, event: Event) -> Result<CoreView, ObserveError> {
        match event.data {
            EventData::SpanEnd(end) => match end.data {
                None => Err(ObserveError::MissingSpanEndData),
                Some(SpanEndData::ActionExecution(action)) => Ok(
                    CoreView { action_stats: self.action_stats.after(action), ..self },
                ),
                Some(_) => Ok(self),
            },
            EventData::Instant(instant) => match instant.data {
                None => Err(ObserveError::MissingInstantData),
                Some(data) => self.instant_step(event.timestamp, data),
            },
            _ => Ok(self),
        }
    }

    /// What `event`, received at `receive_time`, does to the projections: first the spans take
    /// it in, then its payload is applied. If the spans reject it nothing changes; if its
    /// payload is rejected the spans have changed and nothing else has.
    pub open spec fn step(self, receive_time: u64, event: Event) -> Step<CoreView> {
        match span_step(self.spans, receive_time, event) {
            Err(error) => Step { state: self, outcome: Err(ObserveError::Span(error)) },
            Ok(spans) => {
                let spanned = CoreView { spans, ..self };
                match spanned.payload_step(event) {
                    Err(error) => Step { state: spanned, outcome: Err(error) },
                    Ok(next) => Step { state: next, outcome: Ok(()) },
                }
            },
        }
    }

    /// Every counter that the payload of `event` advances can still be advanced.
    pub open spec fn payload_has_room(self, event: Event) -> bool {
        match event.data {
            EventData::SpanEnd(end) => end.data matches Some(SpanEndData::ActionExecution(action))
                ==> self.action_stats.has_room(action),
            EventData::Instant(instant) => match instant.data {
                Some(InstantData::TestDiscovery(discovery)) => discovery.data matches Some(
                    TestDiscoveryData::Tests(suite),
                ) ==> self.test_state.discovered + suite.test_names@.len() <= u64::MAX,
                Some(InstantData::TestResult(result)) => self.test_state.has_room(result.status),
                _ => true,
            },
            _ => true,
        }
    }

    /// Every counter that `event` advances, unless the spans reject it, can still be advanced.
    pub open spec fn has_room(self, receive_time: u64, event: Event) -> bool {
        span_step(self.spans, receive_time, event) is Ok ==> self.payload_has_room(event)
    }
}

/// What can be added to an observer: projections of its own, fed every event that the
/// observer's own projections took in completely.
pub trait EventObserverExtra: View + Sized + Send {
    /// The value of a new extension.
    spec fn initial() -> Self::V;

    /// What `event`, received at `receive_time`, does to the extension.
    spec fn step(state: Self::V, receive_time: u64, event: Event) -> Step<Self::V>;

    /// Every counter of the extension that `event` advances can still be advanced.
    spec fn has_room(state: Self::V, event: Event) -> bool;

    /// A new extension, with nothing taken in yet.
    fn new() -> (extra: Self)
        ensures
            extra@ == Self::initial(),
    ;

    /// Tells whether `observe` may be called with `event`.
    fn can_observe(&self, event: &Event) -> (ok: bool)
        ensures
            ok == Self::has_room(self@, *event),
    ;

    /// Takes in one event, received at `receive_time`.
    fn observe(&mut self, receive_time: u64, event: &Event) -> (outcome: Result<(), ObserveError>)
        requires
            Self::has_room(old(self)@, *event),
        ensures
            final(self)@ == Self::step(old(self)@, receive_time, *event).state,
            outcome == Self::step(old(self)@, receive_time, *event).outcome,
    ;
}

/// What `event`, received at `receive_time`, does to an observer with an extension of type `E`:
/// a step of the observer's own projections and then, if that went through, a step of the
/// extension.
pub open spec fn observe_step<E: EventObserverExtra>(
    state: ObserverView<E::V>,
    receive_time: u64,
    event: Event,
) -> Step<ObserverView<E::V>> {
    let core = state.core.step(receive_time, event);
    if core.outcome is Err {
        Step {
            state: ObserverView { core: core.state, extra: state.extra },
            outcome: core.outcome,
        }
    } else {
        let extra = E::step(state.extra, receive_time, event);
        Step {
            state: ObserverView { core: core.state, extra: extra.state },
            outcome: extra.outcome,
        }
    }
}

/// Every counter that `event` advances on its way through an observer can still be advanced.
pub open spec fn observe_has_room<E: EventObserverExtra>(
    state: ObserverView<E::V>,
    receive_time: u64,
    event: Event,
) -> bool {
    &&& state.core.has_room(receive_time, event)
    &&& state.core.step(receive_time, event).outcome is Ok ==> E::has_room(state.extra, event)
}

/// Tells whether `wanted` is among `tags`.
fn contains_tag(tags: &Vec<String>, wanted: &String) -> (found: bool)
    ensures
        found == tags.deep_view().contains(wanted@),
{
    let mut i: usize = 0;
    while i < tags.len()
        invariant
            i <= tags.len(),
            forall|j: int| 0 <= j < i ==> (#[trigger] tags.deep_view()[j]) != wanted@,
        decreases tags.len() - i,
    {
        if tags[i] == *wanted {
            assert(tags.deep_view()[i as int] == wanted@);
            return true;
        }
        i = i + 1;
    }
    false
}

/// Keeps the projections of one run up to date.
pub struct EventObserver<E> {
    pub span_tracker: SpanTracker,
    pub action_stats: ActionStats,
    re_state: ReState,
    two_snapshots: TwoSnapshots,
    session_info: SessionInfo,
    test_state: TestState,
    starlark_debugger_state: StarlarkDebuggerState,
    /// Projections that only some consumers need.
    extra: E,
}

impl<E: EventObserverExtra> View for EventObserver<E> {
    type V = ObserverView<E::V>;

    closed spec fn view(&self) -> ObserverView<E::V> {
        ObserverView {
            core: CoreView {
                spans: self.span_tracker@,
                action_stats: self.action_stats,
                re_state: self.re_state@,
                two_snapshots: self.two_snapshots,
                session_info: self.session_info@,
                test_state: self.test_state,
                debugger: self.starlark_debugger_state@,
            },
            extra: self.extra@,
        }
    }
}

impl<E: EventObserverExtra> EventObserver<E> {
    /// An observer for the run `trace_id`, with every projection empty.
    pub fn new(trace_id: TraceId) -> (observer: Self)
        ensures
            observer@ == (ObserverView::<E::V> {
                core: CoreView::initial(trace_id),
                extra: E::initial(),
            }),
    {
        EventObserver {
            span_tracker: SpanTracker::new(),
            action_stats: ActionStats::new(),
            re_state: ReState::new(),
            two_snapshots: TwoSnapshots::new(),
            session_info: SessionInfo::new(trace_id),
            test_state: TestState::new(),
            starlark_debugger_state: StarlarkDebuggerState::new(),
            extra: E::new(),
        }
    }

    /// Applies the payload of `event` to the projections other than the spans.
    fn observe_payload(&mut self, event: &Event) -> (outcome: Result<(), ObserveError>)
        requires
            old(self)@.core.payload_has_room(*event),
        ensures
            final(self)@.extra == old(self)@.extra,
            match old(self)@.core.payload_step(*event) {
                Ok(next) => outcome is Ok && final(self)@.core == next,
                Err(error) => outcome == Err::<(), ObserveError>(error) && final(self)@.core == old(
                    self,
                )@.core,
            },
    {
        match &event.data {
            EventData::SpanEnd(end) => match &end.data {
                None => {
                    return Err(ObserveError::MissingSpanEndData);
                },
                Some(SpanEndData::ActionExecution(action)) => {
                    self.action_stats.update(action);
                },
                Some(_) => {},
            },
            EventData::Instant(instant) => match &instant.data {
                None => {
                    return Err(ObserveError::MissingInstantData);
                },
                Some(InstantData::ReSession(session)) => {
                    self.re_state.add_re_session(session);
                },
                Some(InstantData::Snapshot(snapshot)) => {
                    self.re_state.update(snapshot);
                    self.two_snapshots.update(event.timestamp, snapshot);
                },
                Some(InstantData::TestDiscovery(discovery)) => match &discovery.data {
                    None => {
                        return Err(ObserveError::MissingTestDiscoveryData);
                    },
                    Some(TestDiscoveryData::Session(session)) => {
                        self.session_info.test_session = Some(
                            TestSessionInfo { info: session.info.clone() },
                        );
                    },
                    Some(TestDiscoveryData::Tests(suite)) => {
                        self.test_state.discovered = self.test_state.discovered
                            + suite.test_names.len() as u64;
                    },
                },
                Some(InstantData::TestResult(result)) => {
                    match self.test_state.update(result) {
                        Ok(()) => {},
                        Err(error) => {
                            return Err(ObserveError::TestState(error));
                        },
                    }
                },
                Some(InstantData::DebugAdapterSnapshot(snapshot)) => {
                    match self.starlark_debugger_state.update(event.timestamp, snapshot) {
                        Ok(()) => {},
                        Err(error) => {
                            return Err(ObserveError::Debugger(error));
                        },
                    }
                },
                Some(InstantData::TagEvent(tags)) => {
                    let marker = "which-dice:Modern".to_owned();
                    if contains_tag(&tags.tags, &marker) {
                        self.session_info.modern_dice = true;
                    }
                },
                Some(_) => {},
            },
            _ => {},
        }
        Ok(())
    }

    /// Tells whether `observe` may be called with `event` and `receive_time`.
    pub fn can_observe(&self, receive_time: u64, event: &Event) -> (ok: bool)
        ensures
            ok == observe_has_room::<E>(self@, receive_time, *event),
    {
        if !self.span_tracker.accepts(receive_time, event) {
            return true;
        }
        match &event.data {
            EventData::SpanEnd(end) => match &end.data {
                None => true,
                Some(SpanEndData::ActionExecution(action)) => self.action_stats.can_update(action)
                    && self.extra.can_observe(event),
                Some(_) => self.extra.can_observe(event),
            },
            EventData::Instant(instant) => match &instant.data {
                None => true,
                Some(InstantData::TestDiscovery(discovery)) => match &discovery.data {
                    None => true,
                    Some(TestDiscoveryData::Tests(suite)) => suite.test_names.len() as u64
                        <= u64::MAX - self.test_state.discovered && self.extra.can_observe(event),
                    Some(_) => self.extra.can_observe(event),
                },
                Some(InstantData::TestResult(result)) => self.test_state.can_update(result) && (
                TestStatus::from_code(result.status).is_none() || self.extra.can_observe(event)),
                Some(InstantData::DebugAdapterSnapshot(snapshot)) => !has_distinct_handles(
                    snapshot,
                ) || self.extra.can_observe(event),
                Some(_) => self.extra.can_observe(event),
            },
            _ => self.extra.can_observe(event),
        }
    }

    /// Takes in one event, received at `receive_time`.
    ///
    /// The spans take the event in first. Then its payload is applied to the projection that it
    /// concerns, and at last the extension is given the event. The first of these that rejects
    /// the event ends the call with its error; what was applied before stays applied.
    pub fn observe(&mut self, receive_time: u64, event: &Event) -> (outcome: Result<
        (),
        ObserveError,
    >)
        requires
            observe_has_room::<E>(old(self)@, receive_time, *event),
        ensures
            final(self)@ == observe_step::<E>(old(self)@, receive_time, *event).state,
            outcome == observe_step::<E>(old(self)@, receive_time, *event).outcome,
    {
        match self.span_tracker.handle_event(receive_time, event) {
            Ok(()) => {},
            Err(error) => {
                return Err(ObserveError::Span(error));
            },
        }
        match self.observe_payload(event) {
            Ok(()) => {},
            Err(error) => {
                return Err(error);
            },
        }
        self.extra.observe(receive_time, event)
    }

    /// The spans that are open.
    pub fn spans(&self) -> (spans: &SpanTracker)
        ensures
            spans@ == self@.core.spans,
    {
        &self.span_tracker
    }

    /// The counts of finished actions.
    pub fn action_stats(&self) -> (stats: &ActionStats)
        ensures
            *stats == self@.core.action_stats,
    {
        &self.action_stats
    }

    /// What is known of the remote-execution session.
    pub fn re_state(&self) -> (state: &ReState)
        ensures
            state@ == self@.core.re_state,
    {
        &self.re_state
    }

    /// The two latest resource snapshots.
    pub fn two_snapshots(&self) -> (buffer: &TwoSnapshots)
        ensures
            *buffer == self@.core.two_snapshots,
    {
        &self.two_snapshots
    }

    /// The identity of the run and the facts of its session.
    pub fn session_info(&self) -> (info: &SessionInfo)
        ensures
            info@ == self@.core.session_info,
    {
        &self.session_info
    }

    /// What the debugger last reported.
    pub fn starlark_debugger_state(&self) -> (state: &StarlarkDebuggerState)
        ensures
            state@ == self@.core.debugger,
    {
        &self.starlark_debugger_state
    }

    /// The counters of discovered tests and of test outcomes.
    pub fn test_state(&self) -> (state: &TestState)
        ensures
            *state == self@.core.test_state,
    {
        &self.test_state
    }

    /// The extension.
    pub fn extra(&self) -> (extra: &E)
        ensures
            extra@ == self@.extra,
    {
        &self.extra
    }
}

/// Mathematical value of a [`DebugEventObserverExtra`].
pub struct DebugExtraView {
    pub dice_state: Map<Seq<char>, DiceKeyState>,
    pub debug_events: DebugEventsState,
}

/// The extension for consumers that show debugging detail: it records every event, and keeps the
/// state of the incremental engine.
pub struct DebugEventObserverExtra {
    dice_state: DiceState,
    debug_events: DebugEventsState,
}

impl View for DebugEventObserverExtra {
    type V = DebugExtraView;

    closed spec fn view(&self) -> DebugExtraView {
        DebugExtraView { dice_state: self.dice_state@, debug_events: self.debug_events }
    }
}

impl EventObserverExtra for DebugEventObserverExtra {
    open spec fn initial() -> DebugExtraView {
        DebugExtraView { dice_state: Map::empty(), debug_events: DebugEventsState::empty() }
    }

    /// Every event is recorded. After that, a snapshot of the incremental engine is merged into
    /// what is known of it, and an instant event without payload is rejected.
    open spec fn step(state: DebugExtraView, receive_time: u64, event: Event) -> Step<
        DebugExtraView,
    > {
        let recorded = DebugExtraView {
            debug_events: state.debug_events.after(receive_time, event),
            ..state
        };
        match event.data {
            EventData::Instant(instant) => match instant.data {
                None => Step { state: recorded, outcome: Err(ObserveError::MissingInstantData) },
                Some(InstantData::DiceStateSnapshot(dice)) => Step {
                    state: DebugExtraView {
                        dice_state: merged(recorded.dice_state, dice.key_states@),
                        ..recorded
                    },
                    outcome: Ok(()),
                },
                Some(_) => Step { state: recorded, outcome: Ok(()) },
            },
            _ => Step { state: recorded, outcome: Ok(()) },
        }
    }

    open spec fn has_room(state: DebugExtraView, event: Event) -> bool {
        state.debug_events.has_room(event)
    }

    fn new() -> (extra: Self) {
        DebugEventObserverExtra { dice_state: DiceState::new(), debug_events: DebugEventsState::new() }
    }

    fn can_observe(&self, event: &Event) -> (ok: bool) {
        self.debug_events.can_handle(event)
    }

    fn observe(&mut self, receive_time: u64, event: &Event) -> (outcome: Result<(), ObserveError>) {
        self.debug_events.handle_event(receive_time, event);
        match &event.data {
            EventData::Instant(instant) => match &instant.data {
                None => {
                    return Err(ObserveError::MissingInstantData);
                },
                Some(InstantData::DiceStateSnapshot(dice)) => {
                    self.dice_state.update(dice);
                },
                Some(_) => {},
            },
            _ => {},
        }
        Ok(())
    }
}

impl DebugEventObserverExtra {
    /// The state of the incremental engine.
    pub fn dice_state(&self) -> (state: &DiceState)
        ensures
            state@ == self@.dice_state,
    {
        &self.dice_state
    }

    /// The record of the events that went by.
    pub fn debug_events(&self) -> (state: &DebugEventsState)
        ensures
            *state == self@.debug_events,
    {
        &self.debug_events
    }
}

/// The extension for consumers that need nothing more: it keeps nothing and accepts everything.
pub struct NoopEventObserverExtra;

impl View for NoopEventObserverExtra {
    type V = ();

    open spec fn view(&self) -> () {
        ()
    }
}

impl EventObserverExtra for NoopEventObserverExtra {
    open spec fn initial() -> () {
        ()
    }

    open spec fn step(state: (), receive_time: u64, event: Event) -> Step<()> {
        Step { state: (), outcome: Ok(()) }
    }

    open spec fn has_room(state: (), event: Event) -> bool {
        true
    }

    fn new() -> (extra: Self) {
        NoopEventObserverExtra
    }

    fn can_observe(&self, event: &Event) -> (ok: bool) {
        true
    }

    fn observe(&mut self, receive_time: u64, event: &Event) -> (outcome: Result<(), ObserveError>) {
        Ok(())
    }
}

} // verus!
