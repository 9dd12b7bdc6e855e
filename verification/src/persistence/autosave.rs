//! When to autosave.

use vstd::prelude::*;
use crate::project_state::types::ProjectState;

verus! {

/// Default time between autosaves.
pub const DEFAULT_AUTOSAVE_INTERVAL_MS: u64 = 5000;

/// Snapshots kept per project.
pub const MAX_SNAPSHOTS: usize = 10;

/// Times are milliseconds of a monotonic clock that the host reads.
pub struct AutosaveController {
    pub interval_ms: u64,
    pub last_save_ms: Option<u64>,
    pub enabled: bool,
}

/// An autosave is due: autosave is on, and nothing was saved yet or the
/// interval has passed since the last save.
pub open spec fn spec_autosave_due(c: AutosaveController, now_ms: u64) -> bool {
    c.enabled && match c.last_save_ms {
        None => true,
        Some(last) => now_ms >= last && now_ms - last >= c.interval_ms,
    }
}

impl AutosaveController {
    pub fn new(enabled: bool, interval_ms: u64) -> (r: Self)
        ensures
            r.enabled == enabled,
            r.interval_ms == interval_ms,
            r.last_save_ms is None,
    {
        AutosaveController { interval_ms, last_save_ms: None, enabled }
    }

    /// The project's own autosave settings.
    pub fn from_state(state: &ProjectState) -> (r: Self)
        ensures
            r.enabled == state.storage_state.autosave_enabled,
            r.interval_ms == state.storage_state.autosave_interval_ms,
            r.last_save_ms is None,
    {
        AutosaveController::new(state.storage_state.autosave_enabled, state.storage_state.autosave_interval_ms)
    }

    /// Whether an autosave is due at `now_ms`. A clock reading before the
    /// last save counts as no time elapsed.
    pub fn should_autosave(&self, now_ms: u64) -> (r: bool)
        ensures
            r == spec_autosave_due(*self, now_ms),
    {
        if !self.enabled {
            return false;
        }
        match self.last_save_ms {
            None => true,
            Some(last) => now_ms >= last && now_ms - last >= self.interval_ms,
        }
    }

    pub fn mark_saved(&mut self, now_ms: u64)
        ensures
            *final(self) == (AutosaveController { last_save_ms: Some(now_ms), ..*old(self) }),
    {
        self.last_save_ms = Some(now_ms);
    }

    pub fn set_enabled(&mut self, enabled: bool)
        ensures
            *final(self) == (AutosaveController { enabled, ..*old(self) }),
    {
        self.enabled = enabled;
    }
}

/// Right after a save, no autosave is due until the interval has passed.
pub proof fn lemma_saved_not_due(c: AutosaveController, saved_at: u64, now_ms: u64)
    requires
        saved_at <= now_ms,
        now_ms - saved_at < c.interval_ms,
    ensures
        !spec_autosave_due(AutosaveController { last_save_ms: Some(saved_at), ..c }, now_ms),
{
}

/// Once the interval has passed since the last save, an enabled controller
/// is due.
pub proof fn lemma_due_after_interval(c: AutosaveController, saved_at: u64, now_ms: u64)
    requires
        c.enabled,
        saved_at <= now_ms,
        now_ms - saved_at >= c.interval_ms,
    ensures
        spec_autosave_due(AutosaveController { last_save_ms: Some(saved_at), ..c }, now_ms),
{
}

} // verus!
