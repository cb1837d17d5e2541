//! The engine's picture of a diff: one line per entry, plus the summary
//! counts shown by the status screen.

use vstd::prelude::*;

verus! {

/// The diff summary of the working tree, together with the checked-out
/// branch name.
#[derive(Clone, Debug, Default, PartialEq)]
pub struct DiffWindow {
    pub files_changed: usize,
    pub insertions: usize,
    pub deletions: usize,
    pub branch: String,
}

/// One line of a rendered diff: its text and its origin tag (`'+'`, `'-'`,
/// a header tag, or a context mark).
#[derive(Clone, Debug, PartialEq)]
pub struct DiffLine {
    pub content: String,
    pub origin: char,
}

#[derive(Clone, Debug, PartialEq)]
pub enum DiffComponentType {
    Diff,
    Staged,
}

impl DiffLine {
    pub fn new(content: String, origin: char) -> (l: Self)
        ensures
            l.content == content,
            l.origin == origin,
    {
        Self { content, origin }
    }

    pub fn origin(&self) -> (c: char)
        ensures
            c == self.origin,
    {
        self.origin
    }

    pub fn content(&self) -> (r: &String)
        ensures
            r == &self.content,
    {
        &self.content
    }
}

} // verus!
