//! What is known of the remote-execution session.

use vstd::prelude::*;
use crate::event::{ReSession, Snapshot};

verus! {

/// The remote-execution session of the run, with the first and the latest resource snapshot.
#[derive(Clone, Debug, PartialEq, Eq)]
pub struct ReState {
    pub session_id: Option<String>,
    pub first_snapshot: Option<Snapshot>,
    pub last_snapshot: Option<Snapshot>,
}

/// Mathematical value of a [`ReState`].
pub struct ReStateView {
    pub session_id: Option<Seq<char>>,
    pub first_snapshot: Option<Snapshot>,
    pub last_snapshot: Option<Snapshot>,
}

impl View for ReState {
    type V = ReStateView;

    open spec fn view(&self) -> ReStateView {
        ReStateView {
            session_id: match self.session_id {
                Some(id) => Some(id@),
                None => None,
            },
            first_snapshot: self.first_snapshot,
            last_snapshot: self.last_snapshot,
        }
    }
}

impl ReStateView {
    /// The state before anything was heard of remote execution.
    pub open spec fn empty() -> ReStateView {
        ReStateView { session_id: None, first_snapshot: None, last_snapshot: None }
    }

    /// The state after a session with identifier `session_id` was created.
    pub open spec fn with_session(self, session_id: Seq<char>) -> ReStateView {
        ReStateView { session_id: Some(session_id), ..self }
    }

    /// The state after `snapshot` arrived: the first snapshot ever seen stays, the last one is
    /// replaced.
    pub open spec fn after(self, snapshot: Snapshot) -> ReStateView {
        ReStateView {
            first_snapshot: if self.first_snapshot is Some {
                self.first_snapshot
            } else {
                Some(snapshot)
            },
            last_snapshot: Some(snapshot),
            ..self
        }
    }
}

impl ReState {
    /// The state before anything was heard of remote execution.
    pub fn new() -> (state: ReState)
        ensures
            state@ == ReStateView::empty(),
    {
        ReState { session_id: None, first_snapshot: None, last_snapshot: None }
    }

    /// Records the session that `session` announces.
    pub fn add_re_session(&mut self, session: &ReSession)
        ensures
            final(self)@ == old(self)@.with_session(session.session_id@),
    {
        self.session_id = Some(session.session_id.clone());
    }

    /// Takes in a resource snapshot.
    pub fn update(&mut self, snapshot: &Snapshot)
        ensures
            final(self)@ == old(self)@.after(*snapshot),
    {
        if self.first_snapshot.is_none() {
            self.first_snapshot = Some(*snapshot);
        }
        self.last_snapshot = Some(*snapshot);
    }
}

} // verus!
