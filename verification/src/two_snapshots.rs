//! The two most recent resource snapshots.

use vstd::prelude::*;
use crate::event::Snapshot;

verus! {

/// A rolling pair of resource snapshots, each with the logical timestamp of its event.
#[derive(Clone, Copy, Debug, PartialEq, Eq)]
pub struct TwoSnapshots {
    pub penultimate_snapshot: Option<(u64, Snapshot)>,
    pub last_snapshot: Option<(u64, Snapshot)>,
}

impl TwoSnapshots {
    /// The buffer before any snapshot arrived.
    pub open spec fn empty() -> TwoSnapshots {
        TwoSnapshots { penultimate_snapshot: None, last_snapshot: None }
    }

    /// The buffer after `snapshot` arrived: it becomes the last one, the former last one
    /// becomes the penultimate one, and the former penultimate one is forgotten.
    pub open spec fn after(self, timestamp: u64, snapshot: Snapshot) -> TwoSnapshots {
        TwoSnapshots {
            penultimate_snapshot: self.last_snapshot,
            last_snapshot: Some((timestamp, snapshot)),
        }
    }

    /// The snapshots that the buffer holds, oldest first.
    pub open spec fn held(self) -> Seq<(u64, Snapshot)> {
        let older = match self.penultimate_snapshot {
            Some(entry) => seq![entry],
            None => Seq::empty(),
        };
        match self.last_snapshot {
            Some(entry) => older.push(entry),
            None => older,
        }
    }

    /// An empty buffer.
    pub fn new() -> (buffer: TwoSnapshots)
        ensures
            buffer == TwoSnapshots::empty(),
    {
        TwoSnapshots { penultimate_snapshot: None, last_snapshot: None }
    }

    /// Takes in the snapshot of an event with logical timestamp `timestamp`.
    pub fn update(&mut self, timestamp: u64, snapshot: &Snapshot)
        ensures
            *final(self) == old(self).after(timestamp, *snapshot),
    {
        self.penultimate_snapshot = self.last_snapshot;
        self.last_snapshot = Some((timestamp, *snapshot));
    }

    /// Number of snapshots held: 0, 1 or 2.
    pub fn count(&self) -> (n: usize)
        ensures
            n == self.held().len(),
            n <= 2,
    {
        let older: usize = if self.penultimate_snapshot.is_some() { 1 } else { 0 };
        let newer: usize = if self.last_snapshot.is_some() { 1 } else { 0 };
        older + newer
    }
}

impl Default for TwoSnapshots {
    fn default() -> (buffer: TwoSnapshots)
        ensures
            buffer == TwoSnapshots::empty(),
    {
        TwoSnapshots::new()
    }
}

} // verus!
