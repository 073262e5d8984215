//! What the debugger reports of the evaluations it holds stopped.

use vstd::prelude::*;
use crate::event::{DebugAdapterSnapshot, DebugHandle};

verus! {

/// Why a debugger snapshot was rejected.
#[derive(Clone, Copy, Debug, PartialEq, Eq)]
pub enum DebuggerError {
    /// Two handles of one snapshot share an identifier.
    DuplicateHandle,
}

impl DebuggerError {
    /// What `message` says of each rejection.
    pub open spec fn message_text(self) -> Seq<char> {
        match self {
            DebuggerError::DuplicateHandle => "Debugger snapshot with a repeated handle"@,
        }
    }

    /// One line that describes the rejection.
    pub fn message(&self) -> (text: String)
        ensures
            text@ == self.message_text(),
    {
        match self {
            DebuggerError::DuplicateHandle => "Debugger snapshot with a repeated handle".to_owned(),
        }
    }
}

/// The latest debugger snapshot, as a display needs it.
#[derive(Clone, Debug, PartialEq, Eq)]
pub struct StarlarkDebuggerState {
    /// A debugger has reported at least once.
    pub debugger_attached: bool,
    /// One line for each evaluation that is stopped, in the order of the latest snapshot.
    pub stopped_evaluations: Vec<String>,
    /// Logical timestamp of the latest snapshot.
    pub last_update: Option<u64>,
}

/// Mathematical value of a [`StarlarkDebuggerState`].
pub struct DebuggerView {
    pub debugger_attached: bool,
    pub stopped_evaluations: Seq<Seq<char>>,
    pub last_update: Option<u64>,
}

impl View for StarlarkDebuggerState {
    type V = DebuggerView;

    open spec fn view(&self) -> DebuggerView {
        DebuggerView {
            debugger_attached: self.debugger_attached,
            stopped_evaluations: self.stopped_evaluations.deep_view(),
            last_update: self.last_update,
        }
    }
}

/// No two of `handles` share an identifier.
pub open spec fn distinct_handles(handles: Seq<DebugHandle>) -> bool {
    forall|i: int, j: int|
        0 <= i < j < handles.len() ==> (#[trigger] handles[i]).id != (#[trigger] handles[j]).id
}

/// The descriptions of `handles`, in order.
pub open spec fn descriptions(handles: Seq<DebugHandle>) -> Seq<Seq<char>> {
    Seq::new(handles.len(), |i: int| handles[i].stopped_at@)
}

impl DebuggerView {
    /// The state before any debugger reported.
    pub open spec fn detached() -> DebuggerView {
        DebuggerView {
            debugger_attached: false,
            stopped_evaluations: Seq::empty(),
            last_update: None,
        }
    }

    /// What a snapshot with logical timestamp `timestamp` does: it replaces the state, unless
    /// two of its handles share an identifier.
    pub open spec fn step(self, timestamp: u64, snapshot: DebugAdapterSnapshot) -> Result<
        DebuggerView,
        DebuggerError,
    > {
        if distinct_handles(snapshot.handles@) {
            Ok(
                DebuggerView {
                    debugger_attached: true,
                    stopped_evaluations: descriptions(snapshot.handles@),
                    last_update: Some(timestamp),
                },
            )
        } else {
            Err(DebuggerError::DuplicateHandle)
        }
    }
}

/// Tells whether the handles of `snapshot` have identifiers of their own.
pub fn has_distinct_handles(snapshot: &DebugAdapterSnapshot) -> (distinct: bool)
    ensures
        distinct == distinct_handles(snapshot.handles@),
{
    let n = snapshot.handles.len();
    let mut j: usize = 0;
    while j < n
        invariant
            n == snapshot.handles.len(),
            j <= n,
            forall|a: int, b: int|
                0 <= a < b < j ==> (#[trigger] snapshot.handles@[a]).id != (
                #[trigger] snapshot.handles@[b]).id,
        decreases n - j,
    {
        let mut i: usize = 0;
        while i < j
            invariant
                n == snapshot.handles.len(),
                i <= j < n,
                forall|a: int| 0 <= a < i ==> (#[trigger] snapshot.handles@[a]).id != snapshot.handles@[j as int].id,
            decreases j - i,
        {
            if snapshot.handles[i].id == snapshot.handles[j].id {
                return false;
            }
            i = i + 1;
        }
        j = j + 1;
    }
    true
}

impl StarlarkDebuggerState {
    /// The state before any debugger reported.
    pub fn new() -> (state: StarlarkDebuggerState)
        ensures
            state@ == DebuggerView::detached(),
    {
        let state = StarlarkDebuggerState {
            debugger_attached: false,
            stopped_evaluations: Vec::new(),
            last_update: None,
        };
        assert(state@.stopped_evaluations =~= Seq::empty());
        state
    }

    /// Takes in the debugger snapshot of an event with logical timestamp `timestamp`. A
    /// snapshot in which two handles share an identifier is rejected and changes nothing.
    pub fn update(&mut self, timestamp: u64, snapshot: &DebugAdapterSnapshot) -> (outcome: Result<
        (),
        DebuggerError,
    >)
        ensures
            match old(self)@.step(timestamp, *snapshot) {
                Ok(next) => outcome is Ok && final(self)@ == next,
                Err(error) => outcome == Err::<(), DebuggerError>(error) && final(self)@ == old(
                    self,
                )@,
            },
    {
        if !has_distinct_handles(snapshot) {
            return Err(DebuggerError::DuplicateHandle);
        }
        let n = snapshot.handles.len();
        let mut lines: Vec<String> = Vec::new();
        let mut i: usize = 0;
        while i < n
            invariant
                n == snapshot.handles.len(),
                i <= n,
                lines@.len() == i,
                forall|k: int| 0 <= k < i ==> (#[trigger] lines@[k])@ == snapshot.handles@[k].stopped_at@,
            decreases n - i,
        {
            lines.push(snapshot.handles[i].stopped_at.clone());
            i = i + 1;
        }
        assert(lines.deep_view() =~= descriptions(snapshot.handles@));
        self.debugger_attached = true;
        self.stopped_evaluations = lines;
        self.last_update = Some(timestamp);
        Ok(())
    }
}

} // verus!
