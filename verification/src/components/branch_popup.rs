//! The create-branch popup: a one-line editor whose enter key creates a
//! branch from the current head and checks it out.

use crate::app::{Action, BackendRequest, GitEvent, ProgramEvent};
use crate::components::ComponentType;
use crate::error::Error;
use crate::keys::{KeyCode, KeyEvent, KeyModifiers};
use crate::list_window::{clamped_sub, min_int};
use crate::strutil::{rfind_space, spec_rfind, spec_trim, trim_str};
use vstd::prelude::*;

verus! {

/// The longest branch name the popup accepts, in characters.
pub const BRANCH_INPUT_LIMIT: usize = 75;

pub struct BranchPopup {
    pub cursor_position: (u16, u16),
    pub cursor_visible: bool,
    pub input: String,
    pub visible: bool,
}

/// The cursor column after deleting `removed` characters, clamped at the
/// left edge.
pub open spec fn branch_cursor_back(cursor: u16, removed: int) -> int {
    clamped_sub(cursor as int, removed)
}

/// The last word was deleted: the input was cut at the last space of its
/// trimmed text, or cleared when it has no space, and the cursor moved back
/// by as many characters as were removed.
pub open spec fn branch_word_deleted(pre: BranchPopup, post: BranchPopup) -> bool {
    &&& post.visible == pre.visible
    &&& post.cursor_visible == pre.cursor_visible
    &&& post.cursor_position.1 == pre.cursor_position.1
    &&& match spec_rfind(spec_trim(pre.input@), ' ') {
        Some(index) => {
            &&& post.input@ == pre.input@.subrange(0, index)
            &&& post.cursor_position.0 as int == branch_cursor_back(
                pre.cursor_position.0,
                pre.input@.len() - index,
            )
        },
        None => {
            &&& post.input@.len() == 0
            &&& post.cursor_position.0 as int == branch_cursor_back(
                pre.cursor_position.0,
                pre.input@.len() as int,
            )
        },
    }
}

/// One character joined the input, unless the length limit was reached.
pub open spec fn branch_char_inserted(pre: BranchPopup, post: BranchPopup, c: char) -> bool {
    if pre.input@.len() < BRANCH_INPUT_LIMIT {
        &&& post.input@ == pre.input@.push(c)
        &&& post.cursor_position.0 as int == min_int(
            pre.cursor_position.0 as int + 1,
            u16::MAX as int,
        )
        &&& post.cursor_position.1 == pre.cursor_position.1
        &&& post.visible == pre.visible
        &&& post.cursor_visible == pre.cursor_visible
    } else {
        post == pre
    }
}

/// The last character left the input, on a non-empty input.
pub open spec fn branch_backspaced(pre: BranchPopup, post: BranchPopup) -> bool {
    if pre.input@.len() > 0 {
        &&& post.input@ == pre.input@.drop_last()
        &&& post.cursor_position.0 as int == branch_cursor_back(pre.cursor_position.0, 1)
        &&& post.cursor_position.1 == pre.cursor_position.1
        &&& post.visible == pre.visible
        &&& post.cursor_visible == pre.cursor_visible
    } else {
        post == pre
    }
}

/// The popup closed and emptied itself.
pub open spec fn branch_popup_closed(pre: BranchPopup, post: BranchPopup) -> bool {
    &&& post.visible == false
    &&& post.cursor_visible == false
    &&& post.input@.len() == 0
    &&& post.cursor_position == pre.cursor_position
}

/// How one key press moves the popup, key by key.
pub open spec fn branch_popup_step(
    pre: BranchPopup,
    post: BranchPopup,
    ev: KeyEvent,
    actions: Seq<Action>,
) -> bool {
    if !pre.visible {
        post == pre && actions.len() == 0
    } else {
        match ev.code {
            KeyCode::Char(c) => actions.len() == 0 && if c == 'w' && ev.modifiers
                == KeyModifiers::Control {
                branch_word_deleted(pre, post)
            } else {
                branch_char_inserted(pre, post, c)
            },
            KeyCode::Backspace => actions.len() == 0 && branch_backspaced(pre, post),
            KeyCode::Enter => branch_popup_closed(pre, post) && actions == create_branch_actions(pre.input),
            KeyCode::Esc => branch_popup_closed(pre, post) && actions =~= seq![
                Action::Emit(ProgramEvent::Focus(ComponentType::BranchComponent)),
            ],
            _ => post == pre && actions.len() == 0,
        }
    }
}

/// What an accepted branch name asks for: focus back on the branch list,
/// the branch itself (when the name is not empty), and a branch-list
/// refresh.
pub open spec fn create_branch_actions(input: String) -> Seq<Action> {
    let focus = Action::Emit(ProgramEvent::Focus(ComponentType::BranchComponent));
    let refresh = Action::Emit(ProgramEvent::Git(GitEvent::RefreshBranchList));
    if input@.len() > 0 {
        seq![focus, Action::Backend(BackendRequest::CreateAndCheckoutBranch(input)), refresh]
    } else {
        seq![focus, refresh]
    }
}

impl BranchPopup {
    pub fn new() -> (p: Self)
        ensures
            p.cursor_position == (0u16, 0u16),
            !p.cursor_visible,
            p.input@.len() == 0,
            !p.visible,
    {
        Self {
            cursor_position: (0, 0),
            cursor_visible: false,
            input: String::new(),
            visible: false,
        }
    }

    pub fn visible(&self) -> (v: bool)
        ensures
            v == self.visible,
    {
        self.visible
    }

    pub fn focus(&mut self, focus: bool)
        ensures
            *final(self) == (BranchPopup { visible: focus, ..*old(self) }),
    {
        self.visible = focus;
    }

    /// Delete the last word, as control-w asks.
    fn delete_last_word(&mut self)
        ensures
            branch_word_deleted(*old(self), *final(self)),
    {
        let trimmed = trim_str(self.input.as_str());
        let len = self.input.as_str().unicode_len();
        match rfind_space(trimmed.as_str()) {
            Some(index) => {
                proof {
                    crate::strutil::lemma_trim_len(old(self).input@);
                    crate::strutil::lemma_rfind_in_range(spec_trim(old(self).input@), ' ');
                }
                let removed = len - index;
                let removed16: u16 = if removed > 65535 {
                    65535
                } else {
                    removed as u16
                };
                self.cursor_position.0 = self.cursor_position.0.saturating_sub(removed16);
                let head = self.input.as_str().substring_char(0, index).to_owned();
                self.input = head;
            },
            None => {
                let removed16: u16 = if len > 65535 {
                    65535
                } else {
                    len as u16
                };
                self.cursor_position.0 = self.cursor_position.0.saturating_sub(removed16);
                self.input.clear();
            },
        }
    }

    /// Route one key press.  Characters extend the input up to the length
    /// limit, backspace and control-w edit it, enter accepts it and closes
    /// the popup, escape just closes it.
    pub fn handle_event(&mut self, ev: KeyEvent) -> (r: Result<Vec<Action>, Error>)
        ensures
            r matches Ok(a) && branch_popup_step(*old(self), *final(self), ev, a@),
    {
        if !self.visible {
            return Ok(Vec::new());
        }
        let mut actions: Vec<Action> = Vec::new();
        match ev.code {
            KeyCode::Char(c) => {
                if c == 'w' && matches!(ev.modifiers, KeyModifiers::Control) {
                    self.delete_last_word();
                } else {
                    if self.input.as_str().unicode_len() < BRANCH_INPUT_LIMIT {
                        self.cursor_position.0 = self.cursor_position.0.saturating_add(1);
                        self.input.push(c);
                    }
                }
            },
            KeyCode::Backspace => {
                if !self.input.as_str().is_empty() {
                    self.cursor_position.0 = self.cursor_position.0.saturating_sub(1);
                    self.input.pop();
                }
            },
            KeyCode::Enter => {
                let input = self.input.clone();
                actions.push(Action::Emit(ProgramEvent::Focus(ComponentType::BranchComponent)));
                self.cursor_visible = false;
                self.visible = false;
                self.input.clear();
                if !input.as_str().is_empty() {
                    actions.push(
                        Action::Backend(BackendRequest::CreateAndCheckoutBranch(input)),
                    );
                }
                actions.push(Action::Emit(ProgramEvent::Git(GitEvent::RefreshBranchList)));
                proof {
                    assert(actions@ =~= create_branch_actions(old(self).input));
                }
            },
            KeyCode::Esc => {
                actions.push(Action::Emit(ProgramEvent::Focus(ComponentType::BranchComponent)));
                self.cursor_visible = false;
                self.visible = false;
                self.input.clear();
            },
            _ => {},
        }
        Ok(actions)
    }
}

} // verus!
