//! Streams of events, and what it means for an event to be well formed.

use vstd::prelude::*;
use crate::event::{Event, EventData, InstantData};
use crate::observer::{observe_step, CoreView, EventObserverExtra, ObserverView};
use crate::span_tracker::span_step;
use crate::starlark_debug::distinct_handles;
use crate::test_state::TestStatus;

verus! {

/// An event together with the time at which it was received.
pub struct Received {
    pub receive_time: u64,
    pub event: Event,
}

/// The payload of `data` is complete and valid: a test-discovery fact has its payload, a test
/// result has a status number that names an outcome, and the handles of a debugger snapshot
/// have identifiers of their own.
pub open spec fn instant_well_formed(data: InstantData) -> bool {
    match data {
        InstantData::TestDiscovery(discovery) => discovery.data is Some,
        InstantData::TestResult(result) => TestStatus::decode(result.status) is Some,
        InstantData::DebugAdapterSnapshot(snapshot) => distinct_handles(snapshot.handles@),
        _ => true,
    }
}

/// The payload of `event` is complete and valid at every level.
pub open spec fn payload_well_formed(event: Event) -> bool {
    match event.data {
        EventData::SpanEnd(end) => end.data is Some,
        EventData::Instant(instant) => instant.data matches Some(data) && instant_well_formed(
            data,
        ),
        _ => true,
    }
}

/// `event` is well formed where the projections are `core`: its payload is complete and valid,
/// and it keeps to the span protocol.
pub open spec fn well_formed(core: CoreView, receive_time: u64, event: Event) -> bool {
    &&& payload_well_formed(event)
    &&& span_step(core.spans, receive_time, event) is Ok
}

/// The state of an observer that started in `state` and was fed the first `n` events of
/// `stream`, one after the other, whatever the outcome of each.
pub open spec fn state_after<E: EventObserverExtra>(
    state: ObserverView<E::V>,
    stream: Seq<Received>,
    n: nat,
) -> ObserverView<E::V>
    decreases n,
{
    if n == 0 {
        state
    } else {
        let before = state_after::<E>(state, stream, (n - 1) as nat);
        observe_step::<E>(before, stream[n - 1].receive_time, stream[n - 1].event).state
    }
}

/// Every event of `stream` is well formed where it arrives, for an observer that starts in
/// `state`.
pub open spec fn well_formed_stream<E: EventObserverExtra>(
    state: ObserverView<E::V>,
    stream: Seq<Received>,
) -> bool {
    forall|n: nat|
        n < stream.len() ==> well_formed(
            (#[trigger] state_after::<E>(state, stream, n)).core,
            stream[n as int].receive_time,
            stream[n as int].event,
        )
}

/// Every event of `stream` is taken in completely by an observer that starts in `state`.
pub open spec fn all_taken_in<E: EventObserverExtra>(
    state: ObserverView<E::V>,
    stream: Seq<Received>,
) -> bool {
    forall|n: nat|
        n < stream.len() ==> observe_step::<E>(
            #[trigger] state_after::<E>(state, stream, n),
            stream[n as int].receive_time,
            stream[n as int].event,
        ).outcome is Ok
}

} // verus!
