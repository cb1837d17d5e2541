//! The engine's picture of a branch, as handed over by the backend.

use crate::git::log::{commit_like, Commit};
use vstd::prelude::*;

verus! {

#[derive(Clone, Copy, Debug, PartialEq, Eq)]
pub enum BranchType {
    Local,
    Remote,
}

/// A branch of the repository: its short name, whether it is local or
/// remote, and the commit its head points at.
#[derive(Debug)]
pub struct Branch {
    pub name: String,
    pub branch_type: BranchType,
    pub last_commit: Commit,
}

/// Two branches that carry the same data, field for field.
pub open spec fn branch_like(a: Branch, b: Branch) -> bool {
    &&& a.name@ == b.name@
    &&& a.branch_type == b.branch_type
    &&& commit_like(a.last_commit, b.last_commit)
}

impl Clone for Branch {
    /// A copy carrying the same data.
    fn clone(&self) -> (res: Self)
        ensures
            branch_like(res, *self),
    {
        Branch {
            name: self.name.clone(),
            branch_type: self.branch_type,
            last_commit: self.last_commit.clone(),
        }
    }
}

/// The key branches are ordered by: the age of their last commit.
pub open spec fn branch_age(b: Branch) -> u64 {
    b.last_commit.time.time_since_commit.0
}

} // verus!
