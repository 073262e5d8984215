//! What holds of every observer, proved from the transition functions.

use vstd::prelude::*;
use crate::event::{Event, EventData, InstantData, Snapshot, SpanEndData, TestDiscoveryData};
use crate::observer::{
    modern_dice_tag,
    observe_step,
    CoreView,
    DebugEventObserverExtra,
    DebugExtraView,
    EventObserverExtra,
    NoopEventObserverExtra,
    ObserveError,
    ObserverView,
    Step,
};
use crate::session_info::TraceId;
use crate::span_tracker::{
    distinct_ids,
    is_first,
    lemma_first_index,
    lemma_push_keeps_distinct,
    lemma_remove_keeps_distinct,
    span_step,
    OpenSpan,
    SpanError,
};
use crate::stream::{all_taken_in, state_after, well_formed, well_formed_stream, Received};
use crate::two_snapshots::TwoSnapshots;

verus! {

/// A well-formed event is taken in completely by the observer's own projections.
pub proof fn law_well_formed_event_is_taken_in(core: CoreView, receive_time: u64, event: Event)
    requires
        well_formed(core, receive_time, event),
    ensures
        core.step(receive_time, event).outcome is Ok,
{
}

/// An observer without extension never fails on a stream of well-formed events.
pub proof fn law_well_formed_stream_never_fails_plain(
    state: ObserverView<()>,
    stream: Seq<Received>,
)
    requires
        well_formed_stream::<NoopEventObserverExtra>(state, stream),
    ensures
        all_taken_in::<NoopEventObserverExtra>(state, stream),
{
    assert forall|n: nat| n < stream.len() implies observe_step::<NoopEventObserverExtra>(
        #[trigger] state_after::<NoopEventObserverExtra>(state, stream, n),
        stream[n as int].receive_time,
        stream[n as int].event,
    ).outcome is Ok by {
        let before = state_after::<NoopEventObserverExtra>(state, stream, n);
        law_well_formed_event_is_taken_in(
            before.core,
            stream[n as int].receive_time,
            stream[n as int].event,
        );
    }
}

/// An observer with the debugging extension never fails on a stream of well-formed events.
pub proof fn law_well_formed_stream_never_fails_debug(
    state: ObserverView<DebugExtraView>,
    stream: Seq<Received>,
)
    requires
        well_formed_stream::<DebugEventObserverExtra>(state, stream),
    ensures
        all_taken_in::<DebugEventObserverExtra>(state, stream),
{
    assert forall|n: nat| n < stream.len() implies observe_step::<DebugEventObserverExtra>(
        #[trigger] state_after::<DebugEventObserverExtra>(state, stream, n),
        stream[n as int].receive_time,
        stream[n as int].event,
    ).outcome is Ok by {
        let before = state_after::<DebugEventObserverExtra>(state, stream, n);
        law_well_formed_event_is_taken_in(
            before.core,
            stream[n as int].receive_time,
            stream[n as int].event,
        );
    }
}

/// The state after `n` events depends on the first `n` events only: two streams that agree on
/// their first `n` events lead from the same state to the same state.
pub proof fn law_state_depends_on_past_only<E: EventObserverExtra>(
    state: ObserverView<E::V>,
    one: Seq<Received>,
    other: Seq<Received>,
    n: nat,
)
    requires
        n <= one.len(),
        n <= other.len(),
        forall|i: int| 0 <= i < n ==> one[i] == other[i],
    ensures
        state_after::<E>(state, one, n) == state_after::<E>(state, other, n),
    decreases n,
{
    if n > 0 {
        law_state_depends_on_past_only::<E>(state, one, other, (n - 1) as nat);
    }
}

/// Feeding a stream in two parts is feeding it whole: the second part starts from the state
/// that the first part left, and from nothing else.
pub proof fn law_streams_compose<E: EventObserverExtra>(
    state: ObserverView<E::V>,
    first: Seq<Received>,
    second: Seq<Received>,
    n: nat,
)
    requires
        n <= second.len(),
    ensures
        state_after::<E>(state, first + second, first.len() + n) == state_after::<E>(
            state_after::<E>(state, first, first.len()),
            second,
            n,
        ),
    decreases n,
{
    if n == 0 {
        law_state_depends_on_past_only::<E>(state, first + second, first, first.len());
    } else {
        law_streams_compose::<E>(state, first, second, (n - 1) as nat);
        assert((first + second)[first.len() + n - 1] == second[n - 1]);
    }
}

/// An event of a top-level kind that has no projection here, or an instant event of such a
/// kind, is taken in and changes none of the observer's own projections.
pub proof fn law_unknown_kinds_change_nothing(core: CoreView, receive_time: u64, event: Event)
    requires
        event.data is Other || event.instant_data() == Some(InstantData::Other),
    ensures
        core.step(receive_time, event) == (Step { state: core, outcome: Ok(()) }),
{
}

/// The end of a span of a kind that has no projection here does what the spans make of it, and
/// nothing else.
pub proof fn law_unknown_span_end_only_moves_spans(
    core: CoreView,
    receive_time: u64,
    event: Event,
)
    requires
        event.span_end_data() == Some(SpanEndData::Other),
    ensures
        match span_step(core.spans, receive_time, event) {
            Ok(spans) => core.step(receive_time, event) == (Step {
                state: CoreView { spans, ..core },
                outcome: Ok(()),
            }),
            Err(error) => core.step(receive_time, event) == (Step {
                state: core,
                outcome: Err(ObserveError::Span(error)),
            }),
        },
{
}

/// An observer without extension is left as it was by an event of a kind that has no
/// projection here; with the debugging extension the event is recorded and nothing else
/// changes. Either way the event is taken in.
pub proof fn law_unknown_kinds_through_extensions(
    core: CoreView,
    rich: DebugExtraView,
    receive_time: u64,
    event: Event,
)
    requires
        event.data is Other || event.instant_data() == Some(InstantData::Other),
    ensures
        observe_step::<NoopEventObserverExtra>(
            ObserverView { core, extra: () },
            receive_time,
            event,
        ) == (Step { state: ObserverView { core, extra: () }, outcome: Ok(()) }),
        observe_step::<DebugEventObserverExtra>(
            ObserverView { core, extra: rich },
            receive_time,
            event,
        ) == (Step {
            state: ObserverView {
                core,
                extra: DebugExtraView {
                    debug_events: rich.debug_events.after(receive_time, event),
                    ..rich
                },
            },
            outcome: Ok(()),
        }),
{
}

/// An instant event without payload is rejected as such, whatever the state. The spans have
/// taken it in by then, and no other projection has changed, nor has any extension.
pub proof fn law_instant_without_payload<E: EventObserverExtra>(
    state: ObserverView<E::V>,
    receive_time: u64,
    event: Event,
)
    requires
        event.data matches EventData::Instant(instant) && instant.data is None,
    ensures
        span_step(state.core.spans, receive_time, event) == Ok::<Seq<OpenSpan>, SpanError>(
            state.core.spans,
        ),
        observe_step::<E>(state, receive_time, event) == (Step {
            state,
            outcome: Err(ObserveError::MissingInstantData),
        }),
{
}

/// A span end without payload that keeps to the span protocol is rejected after the spans have
/// closed its span: the spans have changed, and nothing else has.
pub proof fn law_span_end_without_payload<E: EventObserverExtra>(
    state: ObserverView<E::V>,
    receive_time: u64,
    event: Event,
)
    requires
        event.data matches EventData::SpanEnd(end) && end.data is None,
        span_step(state.core.spans, receive_time, event) is Ok,
    ensures
        observe_step::<E>(state, receive_time, event) == (Step {
            state: ObserverView {
                core: CoreView {
                    spans: span_step(state.core.spans, receive_time, event)->Ok_0,
                    ..state.core
                },
                extra: state.extra,
            },
            outcome: Err(ObserveError::MissingSpanEndData),
        }),
{
}

/// The tests that `event` announces, if it is a batch of discovered tests.
pub open spec fn discovered_names(event: Event) -> Option<Seq<String>> {
    match event.instant_data() {
        Some(InstantData::TestDiscovery(discovery)) => match discovery.data {
            Some(TestDiscoveryData::Tests(suite)) => Some(suite.test_names@),
            _ => None,
        },
        _ => None,
    }
}

/// Two batches of discovered tests, one of `k` names and one of `m`, raise the count of
/// discovered tests by `k + m`, as long as the count fits its counter.
pub proof fn law_discovered_tests_add_up(
    core: CoreView,
    first_time: u64,
    first: Event,
    second_time: u64,
    second: Event,
)
    requires
        discovered_names(first) is Some,
        discovered_names(second) is Some,
        core.test_state.discovered + discovered_names(first)->Some_0.len() + discovered_names(
            second,
        )->Some_0.len() <= u64::MAX,
    ensures
        core.step(first_time, first).outcome is Ok,
        core.step(first_time, first).state.step(second_time, second).outcome is Ok,
        core.step(first_time, first).state.step(second_time, second).state.test_state.discovered
            == core.test_state.discovered + discovered_names(first)->Some_0.len()
            + discovered_names(second)->Some_0.len(),
{
}

/// No event that the exact counters can take lowers the count of discovered tests.
pub proof fn law_discovered_tests_never_drop(core: CoreView, receive_time: u64, event: Event)
    requires
        core.has_room(receive_time, event),
    ensures
        core.step(receive_time, event).state.test_state.discovered >= core.test_state.discovered,
{
}

/// A set of tags that holds the marker of the modern incremental engine sets the flag.
pub proof fn law_marker_sets_flag(core: CoreView, receive_time: u64, event: Event)
    requires
        event.instant_data() matches Some(InstantData::TagEvent(tags))
            && tags.tags.deep_view().contains(modern_dice_tag()),
    ensures
        core.step(receive_time, event).outcome is Ok,
        core.step(receive_time, event).state.session_info.modern_dice,
{
}

/// Once set, the flag of the modern incremental engine stays set, whatever event comes and
/// whether or not it is taken in.
pub proof fn law_flag_stays_set(core: CoreView, receive_time: u64, event: Event)
    requires
        core.session_info.modern_dice,
    ensures
        core.step(receive_time, event).state.session_info.modern_dice,
{
}

/// Once set, the flag of the modern incremental engine reads true after every later event of
/// the stream.
pub proof fn law_flag_stays_set_along_stream<E: EventObserverExtra>(
    state: ObserverView<E::V>,
    stream: Seq<Received>,
    n: nat,
    m: nat,
)
    requires
        n <= m <= stream.len(),
        state_after::<E>(state, stream, n).core.session_info.modern_dice,
    ensures
        state_after::<E>(state, stream, m).core.session_info.modern_dice,
    decreases m,
{
    if n < m {
        law_flag_stays_set_along_stream::<E>(state, stream, n, (m - 1) as nat);
        let before = state_after::<E>(state, stream, (m - 1) as nat);
        law_flag_stays_set(before.core, stream[m - 1].receive_time, stream[m - 1].event);
    }
}

/// The identity of the run never changes.
pub proof fn law_trace_id_is_fixed(core: CoreView, receive_time: u64, event: Event)
    ensures
        core.step(receive_time, event).state.session_info.trace_id == core.session_info.trace_id,
{
}

/// The resource snapshot that `event` carries, if it carries one.
pub open spec fn snapshot_of(event: Event) -> Option<Snapshot> {
    match event.instant_data() {
        Some(InstantData::Snapshot(snapshot)) => Some(snapshot),
        _ => None,
    }
}

/// After three resource snapshots the buffer holds the second and the third, each with the
/// logical timestamp of its event, whatever it held before and whatever the timestamps are.
pub proof fn law_buffer_keeps_latest_two(
    core: CoreView,
    times: (u64, u64, u64),
    first: Event,
    second: Event,
    third: Event,
)
    requires
        snapshot_of(first) is Some,
        snapshot_of(second) is Some,
        snapshot_of(third) is Some,
    ensures
        ({
            let one = core.step(times.0, first);
            let two = one.state.step(times.1, second);
            let three = two.state.step(times.2, third);
            &&& one.outcome is Ok
            &&& two.outcome is Ok
            &&& three.outcome is Ok
            &&& three.state.two_snapshots == TwoSnapshots {
                penultimate_snapshot: Some((second.timestamp, snapshot_of(second)->Some_0)),
                last_snapshot: Some((third.timestamp, snapshot_of(third)->Some_0)),
            }
            &&& three.state.two_snapshots.held() == seq![
                (second.timestamp, snapshot_of(second)->Some_0),
                (third.timestamp, snapshot_of(third)->Some_0),
            ]
        }),
{
    let one = core.step(times.0, first);
    let two = one.state.step(times.1, second);
    let three = two.state.step(times.2, third);
    assert(three.state.two_snapshots.held() =~= seq![
        (second.timestamp, snapshot_of(second)->Some_0),
        (third.timestamp, snapshot_of(third)->Some_0),
    ]);
}

/// No extension has a hand in the observer's own projections: they move as they would alone.
pub proof fn law_core_moves_alone<E: EventObserverExtra>(
    state: ObserverView<E::V>,
    receive_time: u64,
    event: Event,
)
    ensures
        observe_step::<E>(state, receive_time, event).state.core == state.core.step(
            receive_time,
            event,
        ).state,
{
}

/// With or without the debugging extension, an event has the same outcome and leaves the same
/// projections of the observer's own.
pub proof fn law_debug_extension_changes_no_outcome(
    core: CoreView,
    rich: DebugExtraView,
    receive_time: u64,
    event: Event,
)
    ensures
        ({
            let plain = observe_step::<NoopEventObserverExtra>(
                ObserverView { core, extra: () },
                receive_time,
                event,
            );
            let debug = observe_step::<DebugEventObserverExtra>(
                ObserverView { core, extra: rich },
                receive_time,
                event,
            );
            &&& plain.outcome == debug.outcome
            &&& plain.state.core == debug.state.core
            &&& plain.outcome == core.step(receive_time, event).outcome
        }),
{
}

/// Fed the same stream from the same projections, an observer without extension and one with
/// the debugging extension hold the same projections of their own after every event.
pub proof fn law_extensions_agree_along_stream(
    core: CoreView,
    rich: DebugExtraView,
    stream: Seq<Received>,
    n: nat,
)
    requires
        n <= stream.len(),
    ensures
        state_after::<NoopEventObserverExtra>(ObserverView { core, extra: () }, stream, n).core
            == state_after::<DebugEventObserverExtra>(
            ObserverView { core, extra: rich },
            stream,
            n,
        ).core,
    decreases n,
{
    if n > 0 {
        law_extensions_agree_along_stream(core, rich, stream, (n - 1) as nat);
        let plain = state_after::<NoopEventObserverExtra>(
            ObserverView { core, extra: () },
            stream,
            (n - 1) as nat,
        );
        let debug = state_after::<DebugEventObserverExtra>(
            ObserverView { core, extra: rich },
            stream,
            (n - 1) as nat,
        );
        law_core_moves_alone::<NoopEventObserverExtra>(
            plain,
            stream[n - 1].receive_time,
            stream[n - 1].event,
        );
        law_core_moves_alone::<DebugEventObserverExtra>(
            debug,
            stream[n - 1].receive_time,
            stream[n - 1].event,
        );
    }
}

/// No two open spans ever share an identifier: an event, taken in or not, leaves the
/// identifiers of the open spans distinct.
pub proof fn law_open_spans_stay_distinct(core: CoreView, receive_time: u64, event: Event)
    requires
        distinct_ids(core.spans),
    ensures
        distinct_ids(core.step(receive_time, event).state.spans),
{
    match span_step(core.spans, receive_time, event) {
        Ok(next) => {
            match event.data {
                EventData::SpanStart => {
                    let span = OpenSpan {
                        id: event.span_id->Some_0,
                        parent: event.parent_id,
                        started_at: receive_time,
                    };
                    lemma_push_keeps_distinct(core.spans, span);
                },
                EventData::SpanEnd(_) => {
                    let id = event.span_id->Some_0;
                    let at = choose|i: int| 0 <= i < core.spans.len() && #[trigger] core.spans[i].id == id;
                    assert(is_first(core.spans, id, at));
                    lemma_first_index(core.spans, id, at);
                    lemma_remove_keeps_distinct(core.spans, at);
                },
                _ => {},
            }
        },
        Err(_) => {},
    }
}

/// From the start of a run on, after any number of events of any stream, no two open spans
/// share an identifier.
pub proof fn law_open_spans_are_distinct_along_stream<E: EventObserverExtra>(
    trace_id: TraceId,
    extra: E::V,
    stream: Seq<Received>,
    n: nat,
)
    requires
        n <= stream.len(),
    ensures
        distinct_ids(
            state_after::<E>(
                ObserverView { core: CoreView::initial(trace_id), extra },
                stream,
                n,
            ).core.spans,
        ),
    decreases n,
{
    if n > 0 {
        law_open_spans_are_distinct_along_stream::<E>(trace_id, extra, stream, (n - 1) as nat);
        let before = state_after::<E>(
            ObserverView { core: CoreView::initial(trace_id), extra },
            stream,
            (n - 1) as nat,
        );
        law_open_spans_stay_distinct(before.core, stream[n - 1].receive_time, stream[n - 1].event);
    }
}

} // verus!
