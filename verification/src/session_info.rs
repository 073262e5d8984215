//! Identity of the run and the facts that become known once per session.

use vstd::prelude::*;
use crate::event::TestSessionInfo;

verus! {

/// Identity of one run: the 128 bits of its UUID.
#[derive(Clone, Copy, Debug, PartialEq, Eq)]
pub struct TraceId {
    pub uuid: u128,
}

/// Facts about the session.
#[derive(Clone, Debug, PartialEq, Eq)]
pub struct SessionInfo {
    pub trace_id: TraceId,
    /// The latest test-session descriptor that was announced.
    pub test_session: Option<TestSessionInfo>,
    /// Set once the run is known to use the modern incremental engine; never cleared.
    pub modern_dice: bool,
}

/// Mathematical value of a [`SessionInfo`].
pub struct SessionInfoView {
    pub trace_id: TraceId,
    pub test_session: Option<Seq<char>>,
    pub modern_dice: bool,
}

impl View for SessionInfo {
    type V = SessionInfoView;

    open spec fn view(&self) -> SessionInfoView {
        SessionInfoView {
            trace_id: self.trace_id,
            test_session: match self.test_session {
                Some(session) => Some(session.info@),
                None => None,
            },
            modern_dice: self.modern_dice,
        }
    }
}

impl SessionInfoView {
    /// The facts at the start of the run `trace_id`.
    pub open spec fn initial(trace_id: TraceId) -> SessionInfoView {
        SessionInfoView { trace_id, test_session: None, modern_dice: false }
    }

    /// The facts after a test session described by `info` was announced.
    pub open spec fn with_test_session(self, info: Seq<char>) -> SessionInfoView {
        SessionInfoView { test_session: Some(info), ..self }
    }

    /// The facts after a set of tags arrived, `marked` telling whether the marker of the modern
    /// incremental engine was among them.
    pub open spec fn with_tags(self, marked: bool) -> SessionInfoView {
        SessionInfoView { modern_dice: self.modern_dice || marked, ..self }
    }
}

impl SessionInfo {
    /// The facts at the start of the run `trace_id`.
    pub fn new(trace_id: TraceId) -> (info: SessionInfo)
        ensures
            info@ == SessionInfoView::initial(trace_id),
    {
        SessionInfo { trace_id, test_session: None, modern_dice: false }
    }
}

} // verus!
