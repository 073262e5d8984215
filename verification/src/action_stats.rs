//! Counts of finished actions, by how their last command was carried out.

use vstd::prelude::*;
use crate::counter::bump;
use crate::event::{ActionExecutionEnd, CommandKind};

verus! {

/// The last of `commands`, if there is any.
pub open spec fn last_command(commands: Seq<CommandKind>) -> Option<CommandKind> {
    if commands.len() == 0 {
        None
    } else {
        Some(commands.last())
    }
}

/// The action that ran `commands` fell back to this machine: its last command ran here, after
/// a command of it had gone to a remote executor.
pub open spec fn fell_back(commands: Seq<CommandKind>) -> bool {
    &&& last_command(commands) == Some(CommandKind::Local)
    &&& exists|i: int| 0 <= i < commands.len() - 1 && #[trigger] commands[i] == CommandKind::Remote
}

/// How many actions finished in each way.
#[derive(Clone, Copy, Debug, PartialEq, Eq)]
pub struct ActionStats {
    pub local_actions: u64,
    pub remote_actions: u64,
    pub cached_actions: u64,
    pub fallback_actions: u64,
    pub remote_dep_file_cached_actions: u64,
}

impl ActionStats {
    /// The statistics of a run in which no action has finished.
    pub open spec fn empty() -> ActionStats {
        ActionStats {
            local_actions: 0,
            remote_actions: 0,
            cached_actions: 0,
            fallback_actions: 0,
            remote_dep_file_cached_actions: 0,
        }
    }

    /// The count of the actions whose last command was of kind `kind`.
    pub open spec fn counter(self, kind: CommandKind) -> u64 {
        match kind {
            CommandKind::Local => self.local_actions,
            CommandKind::Remote => self.remote_actions,
            CommandKind::Cached => self.cached_actions,
            CommandKind::RemoteDepFileCached => self.remote_dep_file_cached_actions,
        }
    }

    /// The statistics after one more action whose last command was of kind `kind`.
    pub open spec fn counted(self, kind: CommandKind) -> ActionStats {
        match kind {
            CommandKind::Local => ActionStats { local_actions: bump(self.local_actions), ..self },
            CommandKind::Remote => ActionStats {
                remote_actions: bump(self.remote_actions),
                ..self
            },
            CommandKind::Cached => ActionStats {
                cached_actions: bump(self.cached_actions),
                ..self
            },
            CommandKind::RemoteDepFileCached => ActionStats {
                remote_dep_file_cached_actions: bump(self.remote_dep_file_cached_actions),
                ..self
            },
        }
    }

    /// Every counter that `action` advances can still be advanced.
    pub open spec fn has_room(self, action: ActionExecutionEnd) -> bool {
        &&& fell_back(action.commands@) ==> self.fallback_actions < u64::MAX
        &&& last_command(action.commands@) matches Some(kind) ==> self.counter(kind) < u64::MAX
    }

    /// The statistics after one more finished action: it counts as a fallback if it fell back,
    /// and under the kind of its last command if it ran any.
    pub open spec fn after(self, action: ActionExecutionEnd) -> ActionStats {
        let s = if fell_back(action.commands@) {
            ActionStats { fallback_actions: bump(self.fallback_actions), ..self }
        } else {
            self
        };
        match last_command(action.commands@) {
            Some(kind) => s.counted(kind),
            None => s,
        }
    }

    /// Statistics with every count at zero.
    pub fn new() -> (stats: ActionStats)
        ensures
            stats == ActionStats::empty(),
    {
        ActionStats {
            local_actions: 0,
            remote_actions: 0,
            cached_actions: 0,
            fallback_actions: 0,
            remote_dep_file_cached_actions: 0,
        }
    }

    /// Tells whether `update` may be called with `action`.
    pub fn can_update(&self, action: &ActionExecutionEnd) -> (ok: bool)
        ensures
            ok == self.has_room(*action),
    {
        let fallback_ok = !was_fallback(action) || self.fallback_actions < u64::MAX;
        let kind_ok = match last_command_of(action) {
            None => true,
            Some(CommandKind::Local) => self.local_actions < u64::MAX,
            Some(CommandKind::Remote) => self.remote_actions < u64::MAX,
            Some(CommandKind::Cached) => self.cached_actions < u64::MAX,
            Some(CommandKind::RemoteDepFileCached) => self.remote_dep_file_cached_actions
                < u64::MAX,
        };
        fallback_ok && kind_ok
    }

    /// Counts one finished action.
    pub fn update(&mut self, action: &ActionExecutionEnd)
        requires
            old(self).has_room(*action),
        ensures
            *final(self) == old(self).after(*action),
    {
        if was_fallback(action) {
            self.fallback_actions = self.fallback_actions + 1;
        }
        match last_command_of(action) {
            None => {},
            Some(CommandKind::Local) => {
                self.local_actions = self.local_actions + 1;
            },
            Some(CommandKind::Remote) => {
                self.remote_actions = self.remote_actions + 1;
            },
            Some(CommandKind::Cached) => {
                self.cached_actions = self.cached_actions + 1;
            },
            Some(CommandKind::RemoteDepFileCached) => {
                self.remote_dep_file_cached_actions = self.remote_dep_file_cached_actions + 1;
            },
        }
    }
}

/// The last command that `action` ran, if it ran any.
pub fn last_command_of(action: &ActionExecutionEnd) -> (last: Option<CommandKind>)
    ensures
        last == last_command(action.commands@),
{
    let n = action.commands.len();
    if n == 0 {
        None
    } else {
        Some(action.commands[n - 1])
    }
}

/// Tells whether `action` fell back to this machine.
pub fn was_fallback(action: &ActionExecutionEnd) -> (fallback: bool)
    ensures
        fallback == fell_back(action.commands@),
{
    let n = action.commands.len();
    if n == 0 {
        return false;
    }
    match action.commands[n - 1] {
        CommandKind::Local => {},
        _ => {
            return false;
        },
    }
    let mut i: usize = 0;
    while i < n - 1
        invariant
            n == action.commands.len(),
            0 < n,
            i <= n - 1,
            action.commands@[n - 1] == CommandKind::Local,
            forall|j: int| 0 <= j < i ==> (#[trigger] action.commands@[j]) != CommandKind::Remote,
        decreases n - 1 - i,
    {
        match action.commands[i] {
            CommandKind::Remote => {
                assert(action.commands@[i as int] == CommandKind::Remote);
                return true;
            },
            _ => {},
        }
        i = i + 1;
    }
    false
}

impl Default for ActionStats {
    fn default() -> (stats: ActionStats)
        ensures
            stats == ActionStats::empty(),
    {
        ActionStats::new()
    }
}

} // verus!
