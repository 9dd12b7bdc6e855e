//! Beta program tracking: which projects beta users have completed.

use vstd::prelude::*;
use crate::ids::now_ms;
use crate::paths::{join_path, spec_path_join};

verus! {

/// Completed projects needed before the beta gate opens.
pub const BETA_TARGET: u32 = 10;

#[derive(Debug)]
pub struct BetaCompletion {
    pub project_id: u128,
    pub project_name: String,
    pub user_label: String,
    /// Milliseconds since the Unix epoch.
    pub completed_at: i64,
}

impl Clone for BetaCompletion {
    fn clone(&self) -> (r: Self)
        ensures
            r == *self,
    {
        BetaCompletion {
            project_id: self.project_id,
            project_name: self.project_name.clone(),
            user_label: self.user_label.clone(),
            completed_at: self.completed_at,
        }
    }
}

#[derive(Debug)]
pub struct BetaRegistry {
    pub target: u32,
    pub completions: Vec<BetaCompletion>,
}

/// Some completion is for this project.
pub open spec fn spec_completed(c: Seq<BetaCompletion>, project_id: u128) -> bool {
    exists|i: int| 0 <= i < c.len() && #[trigger] c[i].project_id == project_id
}

impl BetaRegistry {
    /// An empty registry with the default target.
    pub fn new() -> (r: Self)
        ensures
            r.target == BETA_TARGET,
            r.completions@.len() == 0,
    {
        BetaRegistry { target: BETA_TARGET, completions: Vec::new() }
    }

    pub fn count(&self) -> (r: usize)
        ensures
            r == self.completions@.len(),
    {
        self.completions.len()
    }

    /// At least `target` projects are complete.
    pub fn gate_met(&self) -> (r: bool)
        ensures
            r == (self.completions@.len() >= self.target),
    {
        self.completions.len() >= self.target as usize
    }

    /// Records the completion of a project, once: a project already
    /// recorded leaves the registry as it is. Tells whether it was added.
    pub fn mark_complete(&mut self, project_id: u128, project_name: &str, user_label: &str) -> (added: bool)
        ensures
            added == !spec_completed(old(self).completions@, project_id),
            spec_completed(final(self).completions@, project_id),
            final(self).target == old(self).target,
            !added ==> final(self).completions@ == old(self).completions@,
            added ==> final(self).completions@.len() == old(self).completions@.len() + 1,
            added ==> final(self).completions@.drop_last() == old(self).completions@,
            added ==> ({
                let c = final(self).completions@.last();
                c.project_id == project_id && c.project_name@ == project_name@ && c.user_label@ == user_label@
            }),
    {
        let mut i: usize = 0;
        while i < self.completions.len()
            invariant
                i <= self.completions@.len(),
                forall|k: int| 0 <= k < i ==> #[trigger] self.completions@[k].project_id != project_id,
            decreases self.completions@.len() - i,
        {
            if self.completions[i].project_id == project_id {
                assert(self.completions@[i as int].project_id == project_id);
                return false;
            }
            i = i + 1;
        }
        let c = BetaCompletion {
            project_id,
            project_name: String::from_str(project_name),
            user_label: String::from_str(user_label),
            completed_at: now_ms(),
        };
        self.completions.push(c);
        assert(self.completions@.drop_last() =~= old(self).completions@);
        assert(self.completions@[self.completions@.len() - 1].project_id == project_id);
        true
    }
}

impl Default for BetaRegistry {
    /// An empty registry with target 0.
    fn default() -> (r: Self)
        ensures
            r.target == 0,
            r.completions@.len() == 0,
    {
        BetaRegistry { target: 0, completions: Vec::new() }
    }
}

impl Clone for BetaRegistry {
    fn clone(&self) -> (r: Self)
        ensures
            r.target == self.target,
            r.completions@ == self.completions@,
    {
        let completions = self.completions.clone();
        assert(completions@ =~= self.completions@);
        BetaRegistry { target: self.target, completions }
    }
}

/// Where the registry of a data root is kept.
pub struct BetaTracker {
    path: String,
}

impl BetaTracker {
    /// The tracker of `<data_root>/CinemaStudio/beta_registry.json`.
    pub fn new(data_root: &str) -> (r: Self)
        ensures
            r.path()@ == spec_path_join(spec_path_join(data_root@, "CinemaStudio"@), "beta_registry.json"@),
    {
        let dir = join_path(data_root, "CinemaStudio");
        BetaTracker { path: join_path(dir.as_str(), "beta_registry.json") }
    }

    pub closed spec fn path(&self) -> String {
        self.path
    }

    /// The registry file.
    pub fn registry_path(&self) -> (r: &str)
        ensures
            r@ == self.path()@,
    {
        self.path.as_str()
    }
}

} // verus!
