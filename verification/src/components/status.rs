//! The status screen: the checked-out branch and the working-tree diff
//! summary.  It never takes focus or input.

use crate::git::diff::DiffWindow;
use vstd::prelude::*;

verus! {

pub struct StatusComponent {
    pub repo_path: String,
    pub status: DiffWindow,
}

impl StatusComponent {
    pub fn new(repo_path: String) -> (c: Self)
        ensures
            c.repo_path == repo_path,
            c.status.files_changed == 0,
            c.status.insertions == 0,
            c.status.deletions == 0,
            c.status.branch@.len() == 0,
    {
        Self {
            repo_path,
            status: DiffWindow {
                files_changed: 0,
                insertions: 0,
                deletions: 0,
                branch: String::new(),
            },
        }
    }

    /// Adopt the diff summary the backend read on this tick.
    pub fn update(&mut self, stats: DiffWindow)
        ensures
            final(self).status == stats,
            final(self).repo_path == old(self).repo_path,
    {
        self.status = stats;
    }
}

} // verus!
