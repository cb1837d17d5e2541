//! The working-tree file screen: stage, unstage, commit and push from the
//! status list.

use crate::app::{Action, BackendRequest, ProgramEvent};
use crate::components::{scrolled_down, scrolled_up, ComponentType, ScrollableComponent};
use crate::error::Error;
use crate::git::status::{FileStatus, StatusLoc, StatusType};
use crate::keys::{KeyCode, KeyEvent};
use vstd::prelude::*;

verus! {

pub struct FileComponent {
    pub files: Vec<FileStatus>,
    pub focused: bool,
    pub position: usize,
    pub state: Option<usize>,
}

/// A status that means the entry is staged for the next commit.
pub open spec fn is_staged_status(t: StatusType) -> bool {
    t == StatusType::IndexModified || t == StatusType::Added || t == StatusType::Deleted
}

/// Whether any listed entry is staged.
pub open spec fn spec_has_staged(files: Seq<FileStatus>) -> bool {
    exists|i: int| 0 <= i < files.len() && is_staged_status(#[trigger] files[i].status_type)
}

/// What a stage or unstage key asks for.
pub open spec fn stage_actions(s: FileComponent, all: bool, stage: bool) -> Seq<Action> {
    if all && stage {
        seq![Action::Backend(BackendRequest::StageAll)]
    } else if all {
        seq![Action::Backend(BackendRequest::UnstageAll)]
    } else if s.position < s.files@.len() {
        if stage {
            seq![Action::Backend(BackendRequest::StageFile(s.files@[s.position as int].path))]
        } else {
            seq![Action::Backend(BackendRequest::UnstageFile(s.files@[s.position as int].path))]
        }
    } else {
        Seq::empty()
    }
}

/// What the commit key asks for: the commit popup, but only when something
/// is staged.
pub open spec fn open_commit_popup_actions(s: FileComponent) -> Seq<Action> {
    if spec_has_staged(s.files@) {
        seq![Action::Emit(ProgramEvent::Focus(ComponentType::CommitComponent))]
    } else {
        Seq::empty()
    }
}

impl FileComponent {
    pub fn new() -> (c: Self)
        ensures
            c.files@.len() == 0,
            !c.focused,
            c.position == 0,
            c.state == Some(0usize),
    {
        Self { files: Vec::new(), focused: false, position: 0, state: Some(0) }
    }

    /// Adopt the classified status list the backend read on this tick; an
    /// empty list becomes the single "working tree clean" row.
    pub fn update(&mut self, files: Vec<FileStatus>)
        ensures
            final(self).focused == old(self).focused,
            final(self).position == old(self).position,
            final(self).state == old(self).state,
            files@.len() > 0 ==> final(self).files == files,
            files@.len() == 0 ==> {
                &&& final(self).files@.len() == 1
                &&& final(self).files@[0].path@ == "Working tree clean"@
                &&& final(self).files@[0].status_type == StatusType::Unmodified
                &&& final(self).files@[0].status_loc == StatusLoc::Clean
            },
    {
        self.files = files;
        if self.files.is_empty() {
            self.files.push(
                FileStatus {
                    path: "Working tree clean".to_owned(),
                    status_type: StatusType::Unmodified,
                    status_loc: StatusLoc::Clean,
                },
            );
        }
    }

    /// Whether any entry is staged for the next commit.
    pub fn has_files_staged(&self) -> (r: bool)
        ensures
            r == spec_has_staged(self.files@),
    {
        let mut i: usize = 0;
        while i < self.files.len()
            invariant
                0 <= i <= self.files@.len(),
                forall|j: int|
                    0 <= j < i ==> !is_staged_status(#[trigger] self.files@[j].status_type),
            decreases self.files@.len() - i,
        {
            let staged = match self.files[i].status_type {
                StatusType::IndexModified => true,
                StatusType::Added => true,
                StatusType::Deleted => true,
                _ => false,
            };
            if staged {
                return true;
            }
            i = i + 1;
        }
        false
    }

    /// Open the commit popup when something is staged.
    fn commit(&self) -> (r: Vec<Action>)
        ensures
            r@ == open_commit_popup_actions(*self),
    {
        let mut actions: Vec<Action> = Vec::new();
        if self.has_files_staged() {
            actions.push(Action::Emit(ProgramEvent::Focus(ComponentType::CommitComponent)));
        }
        proof {
            assert(actions@ =~= open_commit_popup_actions(*self));
        }
        actions
    }

    /// Stage one entry or everything.
    fn stage_file(&self, all: bool) -> (r: Vec<Action>)
        ensures
            r@ == stage_actions(*self, all, true),
    {
        let mut actions: Vec<Action> = Vec::new();
        if all {
            actions.push(Action::Backend(BackendRequest::StageAll));
        } else if self.position < self.files.len() {
            let path = self.files[self.position].path.clone();
            actions.push(Action::Backend(BackendRequest::StageFile(path)));
        }
        proof {
            assert(actions@ =~= stage_actions(*self, all, true));
        }
        actions
    }

    /// Unstage one entry or everything.
    fn unstage_file(&self, all: bool) -> (r: Vec<Action>)
        ensures
            r@ == stage_actions(*self, all, false),
    {
        let mut actions: Vec<Action> = Vec::new();
        if all {
            actions.push(Action::Backend(BackendRequest::UnstageAll));
        } else if self.position < self.files.len() {
            let path = self.files[self.position].path.clone();
            actions.push(Action::Backend(BackendRequest::UnstageFile(path)));
        }
        proof {
            assert(actions@ =~= stage_actions(*self, all, false));
        }
        actions
    }

    /// Route one key press.  j/k move the selection; a/A and s/u stage and
    /// unstage; c opens the commit popup, C commits through the external
    /// editor, p pushes.
    pub fn handle_event(&mut self, ev: KeyEvent) -> (r: Result<Vec<Action>, Error>)
        ensures
            r matches Ok(a) && file_component_step(*old(self), *final(self), ev, a@),
    {
        if !self.focused {
            return Ok(Vec::new());
        }
        match ev.code {
            KeyCode::Char(c) => {
                if c == 'j' {
                    self.scroll_down(1);
                    Ok(Vec::new())
                } else if c == 'k' {
                    self.scroll_up(1);
                    Ok(Vec::new())
                } else if c == 'a' {
                    Ok(self.stage_file(true))
                } else if c == 'A' {
                    Ok(self.unstage_file(true))
                } else if c == 's' {
                    Ok(self.stage_file(false))
                } else if c == 'u' {
                    Ok(self.unstage_file(false))
                } else if c == 'c' {
                    Ok(self.commit())
                } else if c == 'C' {
                    let mut actions: Vec<Action> = Vec::new();
                    actions.push(Action::Backend(BackendRequest::CommitWithEditor));
                    Ok(actions)
                } else if c == 'p' {
                    let mut actions: Vec<Action> = Vec::new();
                    actions.push(Action::Backend(BackendRequest::Push));
                    Ok(actions)
                } else {
                    Ok(Vec::new())
                }
            },
            _ => Ok(Vec::new()),
        }
    }

    pub fn focus(&mut self, focus: bool)
        ensures
            *final(self) == (FileComponent { focused: focus, ..*old(self) }),
    {
        self.focused = focus;
    }
}

impl ScrollableComponent for FileComponent {
    open spec fn spec_list_length(&self) -> nat {
        self.files@.len()
    }

    open spec fn spec_position(&self) -> nat {
        self.position as nat
    }

    open spec fn spec_with_position(&self, p: nat) -> Self {
        FileComponent { position: p as usize, ..*self }
    }

    open spec fn spec_with_state(&self, p: nat) -> Self {
        FileComponent { state: Some(p as usize), ..*self }
    }

    fn get_list_length(&self) -> usize {
        self.files.len()
    }

    fn get_position(&self) -> usize {
        self.position
    }

    fn set_position(&mut self, position: usize) {
        self.position = position;
    }

    fn set_state(&mut self, position: usize) {
        self.state = Some(position);
    }
}

/// How one key press moves the file screen, key by key.
pub open spec fn file_component_step(
    pre: FileComponent,
    post: FileComponent,
    ev: KeyEvent,
    actions: Seq<Action>,
) -> bool {
    if !pre.focused {
        post == pre && actions.len() == 0
    } else {
        match ev.code {
            KeyCode::Char(c) => {
                if c == 'j' {
                    scrolled_down(pre, post, 1) && actions.len() == 0
                } else if c == 'k' {
                    scrolled_up(pre, post, 1) && actions.len() == 0
                } else if c == 'a' {
                    post == pre && actions == stage_actions(pre, true, true)
                } else if c == 'A' {
                    post == pre && actions == stage_actions(pre, true, false)
                } else if c == 's' {
                    post == pre && actions == stage_actions(pre, false, true)
                } else if c == 'u' {
                    post == pre && actions == stage_actions(pre, false, false)
                } else if c == 'c' {
                    post == pre && actions == open_commit_popup_actions(pre)
                } else if c == 'C' {
                    post == pre && actions =~= seq![
                        Action::Backend(BackendRequest::CommitWithEditor),
                    ]
                } else if c == 'p' {
                    post == pre && actions =~= seq![Action::Backend(BackendRequest::Push)]
                } else {
                    post == pre && actions.len() == 0
                }
            },
            _ => post == pre && actions.len() == 0,
        }
    }
}

} // verus!
