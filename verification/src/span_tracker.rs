//! The spans that are open at the moment.

use vstd::prelude::*;
use crate::event::{Event, EventData};

verus! {

/// A span that has started and not yet ended.
#[derive(Clone, Copy, Debug, PartialEq, Eq)]
pub struct OpenSpan {
    pub id: u64,
    pub parent: Option<u64>,
    /// When the start of the span was received.
    pub started_at: u64,
}

/// A violation of the span protocol.
#[derive(Clone, Copy, Debug, PartialEq, Eq)]
pub enum SpanError {
    /// A span start or end that names no span.
    MissingSpanId,
    /// A start of a span that is open already.
    AlreadyOpen(u64),
    /// An end of a span that is not open: it never started, or it ended before.
    NotOpen(u64),
}

impl SpanError {
    /// What `message` says of each violation.
    pub open spec fn message_text(self) -> Seq<char> {
        match self {
            SpanError::MissingSpanId => "Span event without a span id"@,
            SpanError::AlreadyOpen(_) => "Started a span that is already open"@,
            SpanError::NotOpen(_) => "Ended a span that is not open"@,
        }
    }

    /// One line that describes the violation.
    pub fn message(&self) -> (text: String)
        ensures
            text@ == self.message_text(),
    {
        match self {
            SpanError::MissingSpanId => "Span event without a span id".to_owned(),
            SpanError::AlreadyOpen(_) => "Started a span that is already open".to_owned(),
            SpanError::NotOpen(_) => "Ended a span that is not open".to_owned(),
        }
    }
}

/// Some span of `open` has identifier `id`.
pub open spec fn is_open(open: Seq<OpenSpan>, id: u64) -> bool {
    exists|i: int| 0 <= i < open.len() && #[trigger] open[i].id == id
}

/// `i` is the place of the first span of `open` that has identifier `id`.
pub open spec fn is_first(open: Seq<OpenSpan>, id: u64, i: int) -> bool {
    &&& 0 <= i < open.len()
    &&& open[i].id == id
    &&& forall|j: int| 0 <= j < i ==> (#[trigger] open[j]).id != id
}

/// The place of the first span of `open` that has identifier `id`.
pub open spec fn first_index(open: Seq<OpenSpan>, id: u64) -> int {
    choose|i: int| is_first(open, id, i)
}

/// No two spans of `open` share an identifier.
pub open spec fn distinct_ids(open: Seq<OpenSpan>) -> bool {
    forall|i: int, j: int|
        0 <= i < j < open.len() ==> (#[trigger] open[i]).id != (#[trigger] open[j]).id
}

/// What an event received at `receive_time` does to the open spans: a start opens its span at
/// the end of the list, an end closes its span, and every other event leaves the spans as they
/// are. A start or end is rejected if it names no span, a start if its span is open, an end if
/// its span is not.
pub open spec fn span_step(open: Seq<OpenSpan>, receive_time: u64, event: Event) -> Result<
    Seq<OpenSpan>,
    SpanError,
> {
    match event.data {
        EventData::SpanStart => match event.span_id {
            None => Err(SpanError::MissingSpanId),
            Some(id) => if is_open(open, id) {
                Err(SpanError::AlreadyOpen(id))
            } else {
                Ok(open.push(OpenSpan { id, parent: event.parent_id, started_at: receive_time }))
            },
        },
        EventData::SpanEnd(_) => match event.span_id {
            None => Err(SpanError::MissingSpanId),
            Some(id) => if is_open(open, id) {
                Ok(open.remove(first_index(open, id)))
            } else {
                Err(SpanError::NotOpen(id))
            },
        },
        _ => Ok(open),
    }
}

/// There is only one first place.
pub proof fn lemma_first_index(open: Seq<OpenSpan>, id: u64, i: int)
    requires
        is_first(open, id, i),
    ensures
        first_index(open, id) == i,
        is_open(open, id),
{
    let c = first_index(open, id);
    assert(is_first(open, id, c));
    if c < i {
        assert(open[c].id != id);
    }
    if i < c {
        assert(open[i].id != id);
    }
}

/// Appending a span whose identifier is not open keeps the identifiers distinct.
pub proof fn lemma_push_keeps_distinct(open: Seq<OpenSpan>, span: OpenSpan)
    requires
        distinct_ids(open),
        !is_open(open, span.id),
    ensures
        distinct_ids(open.push(span)),
{
    let next = open.push(span);
    assert forall|i: int, j: int| 0 <= i < j < next.len() implies (#[trigger] next[i]).id != (
    #[trigger] next[j]).id by {
        if j < open.len() {
            assert(open[i].id != open[j].id);
        } else {
            assert(next[i] == open[i]);
            if open[i].id == span.id {
                assert(is_open(open, span.id));
            }
        }
    }
}

/// Taking a span away keeps the identifiers distinct.
pub proof fn lemma_remove_keeps_distinct(open: Seq<OpenSpan>, at: int)
    requires
        distinct_ids(open),
        0 <= at < open.len(),
    ensures
        distinct_ids(open.remove(at)),
{
    let next = open.remove(at);
    assert forall|i: int, j: int| 0 <= i < j < next.len() implies (#[trigger] next[i]).id != (
    #[trigger] next[j]).id by {
        let a = if i < at {
            i
        } else {
            i + 1
        };
        let b = if j < at {
            j
        } else {
            j + 1
        };
        assert(next[i] == open[a]);
        assert(next[j] == open[b]);
        assert(open[a].id != open[b].id);
    }
}

/// Tracks which spans are open, in the order in which they started. No two open spans share
/// an identifier.
#[derive(Debug, PartialEq, Eq)]
pub struct SpanTracker {
    open: Vec<OpenSpan>,
}

impl View for SpanTracker {
    type V = Seq<OpenSpan>;

    closed spec fn view(&self) -> Seq<OpenSpan> {
        self.open@
    }
}

impl SpanTracker {
    #[verifier::type_invariant]
    spec fn ids_are_distinct(&self) -> bool {
        distinct_ids(self.open@)
    }

    /// A tracker with no open span.
    pub fn new() -> (tracker: SpanTracker)
        ensures
            tracker@ == Seq::<OpenSpan>::empty(),
    {
        SpanTracker { open: Vec::new() }
    }

    /// The open spans, in the order in which they started.
    pub fn open_spans(&self) -> (spans: &Vec<OpenSpan>)
        ensures
            spans@ == self@,
            distinct_ids(self@),
    {
        proof {
            use_type_invariant(self);
        }
        &self.open
    }

    /// The place of the open span with identifier `id`.
    pub fn position(&self, id: u64) -> (found: Option<usize>)
        ensures
            match found {
                Some(i) => is_first(self@, id, i as int),
                None => !is_open(self@, id),
            },
    {
        let mut i: usize = 0;
        while i < self.open.len()
            invariant
                i <= self.open.len(),
                forall|j: int| 0 <= j < i ==> (#[trigger] self.open@[j]).id != id,
            decreases self.open.len() - i,
        {
            if self.open[i].id == id {
                return Some(i);
            }
            i = i + 1;
        }
        None
    }

    /// Tells whether `handle_event` would take `event` in.
    pub fn accepts(&self, receive_time: u64, event: &Event) -> (ok: bool)
        ensures
            ok == (span_step(self@, receive_time, *event) is Ok),
    {
        match event.data {
            EventData::SpanStart => match event.span_id {
                None => false,
                Some(id) => match self.position(id) {
                    Some(i) => {
                        proof {
                            lemma_first_index(self@, id, i as int);
                        }
                        false
                    },
                    None => true,
                },
            },
            EventData::SpanEnd(_) => match event.span_id {
                None => false,
                Some(id) => match self.position(id) {
                    Some(i) => {
                        proof {
                            lemma_first_index(self@, id, i as int);
                        }
                        true
                    },
                    None => false,
                },
            },
            _ => true,
        }
    }

    /// Takes in one event, received at `receive_time`. An event that is rejected changes
    /// nothing.
    pub fn handle_event(&mut self, receive_time: u64, event: &Event) -> (outcome: Result<
        (),
        SpanError,
    >)
        ensures
            match span_step(old(self)@, receive_time, *event) {
                Ok(open) => outcome is Ok && final(self)@ == open,
                Err(error) => outcome == Err::<(), SpanError>(error) && final(self)@ == old(self)@,
            },
    {
        proof {
            use_type_invariant(&*self);
        }
        match event.data {
            EventData::SpanStart => match event.span_id {
                None => Err(SpanError::MissingSpanId),
                Some(id) => match self.position(id) {
                    Some(i) => {
                        proof {
                            lemma_first_index(self@, id, i as int);
                        }
                        Err(SpanError::AlreadyOpen(id))
                    },
                    None => {
                        let span = OpenSpan { id, parent: event.parent_id, started_at: receive_time };
                        let mut open: Vec<OpenSpan> = Vec::new();
                        core::mem::swap(&mut self.open, &mut open);
                        proof {
                            lemma_push_keeps_distinct(open@, span);
                        }
                        open.push(span);
                        self.open = open;
                        Ok(())
                    },
                },
            },
            EventData::SpanEnd(_) => match event.span_id {
                None => Err(SpanError::MissingSpanId),
                Some(id) => match self.position(id) {
                    Some(i) => {
                        let mut open: Vec<OpenSpan> = Vec::new();
                        core::mem::swap(&mut self.open, &mut open);
                        proof {
                            lemma_first_index(open@, id, i as int);
                            lemma_remove_keeps_distinct(open@, i as int);
                        }
                        open.remove(i);
                        self.open = open;
                        Ok(())
                    },
                    None => Err(SpanError::NotOpen(id)),
                },
            },
            _ => Ok(()),
        }
    }
}

} // verus!
