//! Live observation of a build's event stream.
//!
//! An [`observer::EventObserver`] receives the events of one run in arrival order and keeps
//! a set of derived projections up to date: open spans, action statistics, remote-execution
//! state, the two latest resource snapshots, session facts, test counters and debugger state.
//! Every projection is described by a pure transition function, and the observer's contract
//! says that one call of `observe` is exactly one step of those functions. The module
//! [`laws`] proves what follows from that for every state and every stream of events.

pub mod counter;
pub mod event;

pub mod action_stats;
pub mod debug_events;
pub mod dice_state;
pub mod re_state;
pub mod session_info;
pub mod span_tracker;
pub mod starlark_debug;
pub mod test_state;
pub mod two_snapshots;

pub mod observer;

pub mod laws;
pub mod stream;
