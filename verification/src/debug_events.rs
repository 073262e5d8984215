//! A record of every event that went by, whatever its kind.

use vstd::prelude::*;
use crate::counter::bump;
use crate::event::{Event, EventData};

verus! {

/// How many events were received, in all and of each top-level kind, and when the latest came.
#[derive(Clone, Copy, Debug, PartialEq, Eq)]
pub struct DebugEventsState {
    pub event_count: u64,
    pub span_start_count: u64,
    pub span_end_count: u64,
    pub instant_count: u64,
    /// When the latest event was received.
    pub last_receive_time: Option<u64>,
}

impl DebugEventsState {
    /// The record before any event.
    pub open spec fn empty() -> DebugEventsState {
        DebugEventsState {
            event_count: 0,
            span_start_count: 0,
            span_end_count: 0,
            instant_count: 0,
            last_receive_time: None,
        }
    }

    /// Every counter that `event` advances can still be advanced.
    pub open spec fn has_room(self, event: Event) -> bool {
        &&& self.event_count < u64::MAX
        &&& match event.data {
            EventData::SpanStart => self.span_start_count < u64::MAX,
            EventData::SpanEnd(_) => self.span_end_count < u64::MAX,
            EventData::Instant(_) => self.instant_count < u64::MAX,
            EventData::Other => true,
        }
    }

    /// The record after `event` was received at `receive_time`.
    pub open spec fn after(self, receive_time: u64, event: Event) -> DebugEventsState {
        let s = DebugEventsState {
            event_count: bump(self.event_count),
            last_receive_time: Some(receive_time),
            ..self
        };
        match event.data {
            EventData::SpanStart => DebugEventsState {
                span_start_count: bump(s.span_start_count),
                ..s
            },
            EventData::SpanEnd(_) => DebugEventsState {
                span_end_count: bump(s.span_end_count),
                ..s
            },
            EventData::Instant(_) => DebugEventsState { instant_count: bump(s.instant_count), ..s },
            EventData::Other => s,
        }
    }

    /// The record before any event.
    pub fn new() -> (state: DebugEventsState)
        ensures
            state == DebugEventsState::empty(),
    {
        DebugEventsState {
            event_count: 0,
            span_start_count: 0,
            span_end_count: 0,
            instant_count: 0,
            last_receive_time: None,
        }
    }

    /// Tells whether `handle_event` may be called with `event`.
    pub fn can_handle(&self, event: &Event) -> (ok: bool)
        ensures
            ok == self.has_room(*event),
    {
        let kind_ok = match event.data {
            EventData::SpanStart => self.span_start_count < u64::MAX,
            EventData::SpanEnd(_) => self.span_end_count < u64::MAX,
            EventData::Instant(_) => self.instant_count < u64::MAX,
            EventData::Other => true,
        };
        self.event_count < u64::MAX && kind_ok
    }

    /// Records one event, received at `receive_time`.
    pub fn handle_event(&mut self, receive_time: u64, event: &Event)
        requires
            old(self).has_room(*event),
        ensures
            *final(self) == old(self).after(receive_time, *event),
    {
        self.event_count = self.event_count + 1;
        self.last_receive_time = Some(receive_time);
        match event.data {
            EventData::SpanStart => {
                self.span_start_count = self.span_start_count + 1;
            },
            EventData::SpanEnd(_) => {
                self.span_end_count = self.span_end_count + 1;
            },
            EventData::Instant(_) => {
                self.instant_count = self.instant_count + 1;
            },
            EventData::Other => {},
        }
    }
}

} // verus!
