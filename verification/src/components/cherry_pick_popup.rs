//! The cherry-pick popup: a candidate commit list with a toggled selection.

use crate::app::{Action, BackendRequest, ProgramEvent};
use crate::components::{scrolled_down, scrolled_up, ComponentType, ScrollableComponent};
use crate::error::Error;
use crate::git::log::Commit;
use crate::keys::{KeyCode, KeyEvent, KeyModifiers};
use vstd::prelude::*;

verus! {

pub struct CherryPickPopup {
    pub commits: Vec<Commit>,
    pub position: usize,
    pub selected_commits: Vec<String>,
    pub state: Option<usize>,
    pub visible: bool,
}

/// The first index holding a string equal to `s`, if any.
pub open spec fn spec_find_string(v: Seq<String>, s: Seq<char>, from: int) -> Option<int>
    decreases v.len() - from,
{
    if from < 0 || from >= v.len() {
        None
    } else if v[from]@ == s {
        Some(from)
    } else {
        spec_find_string(v, s, from + 1)
    }
}

/// The first index of `v` whose string equals `s`, if any.
pub fn find_string(v: &Vec<String>, s: &String) -> (r: Option<usize>)
    ensures
        match r {
            Some(i) => spec_find_string(v@, s@, 0) == Some(i as int) && i < v@.len(),
            None => spec_find_string(v@, s@, 0) is None,
        },
{
    let mut i: usize = 0;
    while i < v.len()
        invariant
            0 <= i <= v@.len(),
            spec_find_string(v@, s@, 0) == spec_find_string(v@, s@, i as int),
        decreases v@.len() - i,
    {
        if v[i] == *s {
            return Some(i);
        }
        i = i + 1;
    }
    None
}

impl CherryPickPopup {
    pub fn new() -> (p: Self)
        ensures
            p.commits@.len() == 0,
            p.position == 0,
            p.selected_commits@.len() == 0,
            p.state == Some(0usize),
            !p.visible,
    {
        Self {
            commits: Vec::new(),
            position: 0,
            selected_commits: Vec::new(),
            state: Some(0),
            visible: false,
        }
    }

    pub fn visible(&self) -> (v: bool)
        ensures
            v == self.visible,
    {
        self.visible
    }

    /// Adopt the candidate commits injected on focus.
    pub fn set_logs(&mut self, logs: Vec<Commit>)
        ensures
            *final(self) == (CherryPickPopup { commits: logs, ..*old(self) }),
    {
        self.commits = logs;
    }

    pub fn focus(&mut self, focus: bool)
        ensures
            *final(self) == (CherryPickPopup { visible: focus, ..*old(self) }),
    {
        self.visible = focus;
    }

    /// Toggle the commit under the cursor in or out of the selection.
    fn select_commit(&mut self)
        ensures
            final(self).commits == old(self).commits,
            final(self).position == old(self).position,
            final(self).state == old(self).state,
            final(self).visible == old(self).visible,
            old(self).position >= old(self).commits@.len() ==> *final(self) == *old(self),
            old(self).position < old(self).commits@.len() ==> {
                let id = old(self).commits@[old(self).position as int].id@;
                match spec_find_string(old(self).selected_commits@, id, 0) {
                    Some(i) => final(self).selected_commits@ == old(self).selected_commits@.remove(i),
                    None => final(self).selected_commits@.len() == old(self).selected_commits@.len() + 1 && final(self).selected_commits@.last()@ == id
                        && final(self).selected_commits@.drop_last() == old(self).selected_commits@,
                }
            },
    {
        if self.position >= self.commits.len() {
            return ;
        }
        let id = self.commits[self.position].id();
        match find_string(&self.selected_commits, id) {
            Some(index) => {
                self.selected_commits.remove(index);
            },
            None => {
                let owned = id.clone();
                self.selected_commits.push(owned);
            },
        }
    }

    /// Ask the backend to cherry-pick the selected commits, and empty the
    /// selection.
    fn cherry_pick(&mut self) -> (r: Result<Vec<Action>, Error>)
        ensures
            final(self).selected_commits@.len() == 0,
            *final(self) == (CherryPickPopup {
                selected_commits: final(self).selected_commits,
                ..*old(self)
            }),
            r matches Ok(a) && a@ =~= seq![
                Action::Backend(BackendRequest::CherryPick(old(self).selected_commits)),
            ],
    {
        let mut actions: Vec<Action> = Vec::new();
        let mut picked: Vec<String> = Vec::new();
        core::mem::swap(&mut picked, &mut self.selected_commits);
        actions.push(Action::Backend(BackendRequest::CherryPick(picked)));
        Ok(actions)
    }

    /// Route one key press: j/k and control-d/u move the cursor, `s`
    /// toggles the selection, enter asks for the cherry-pick, escape closes
    /// the popup and empties the selection.
    pub fn handle_event(&mut self, ev: KeyEvent) -> (r: Result<Vec<Action>, Error>)
        ensures
            r matches Ok(a) && cherry_pick_step(*old(self), *final(self), ev, a@),
    {
        if !self.visible {
            return Ok(Vec::new());
        }
        match ev.code {
            KeyCode::Char(c) => {
                if c == 'j' && matches!(ev.modifiers, KeyModifiers::Empty) {
                    self.scroll_down(1);
                } else if c == 'k' && matches!(ev.modifiers, KeyModifiers::Empty) {
                    self.scroll_up(1);
                } else if c == 'd' && matches!(ev.modifiers, KeyModifiers::Control) {
                    self.scroll_down(10);
                } else if c == 'u' && matches!(ev.modifiers, KeyModifiers::Control) {
                    self.scroll_up(10);
                } else if c == 's' {
                    self.select_commit();
                }
                Ok(Vec::new())
            },
            KeyCode::Esc => {
                self.selected_commits.clear();
                let mut actions: Vec<Action> = Vec::new();
                actions.push(Action::Emit(ProgramEvent::Focus(ComponentType::BranchComponent)));
                self.visible = false;
                Ok(actions)
            },
            KeyCode::Enter => self.cherry_pick(),
            _ => Ok(Vec::new()),
        }
    }
}

impl ScrollableComponent for CherryPickPopup {
    open spec fn spec_list_length(&self) -> nat {
        self.commits@.len()
    }

    open spec fn spec_position(&self) -> nat {
        self.position as nat
    }

    open spec fn spec_with_position(&self, p: nat) -> Self {
        CherryPickPopup { position: p as usize, ..*self }
    }

    open spec fn spec_with_state(&self, p: nat) -> Self {
        CherryPickPopup { state: Some(p as usize), ..*self }
    }

    fn get_list_length(&self) -> usize {
        self.commits.len()
    }

    fn get_position(&self) -> usize {
        self.position
    }

    fn set_position(&mut self, position: usize) {
        self.position = position;
    }

    fn set_state(&mut self, position: usize) {
        self.state = Some(position);
    }
}

/// The commit under the cursor left the selection if it was in it, and
/// joined it (at the end) if it was not; with the cursor past the list
/// nothing happens.
pub open spec fn selection_toggled(pre: CherryPickPopup, post: CherryPickPopup) -> bool {
    &&& post.commits == pre.commits
    &&& post.position == pre.position
    &&& post.state == pre.state
    &&& post.visible == pre.visible
    &&& (pre.position >= pre.commits@.len() ==> post == pre)
    &&& (pre.position < pre.commits@.len() ==> {
        let id = pre.commits@[pre.position as int].id@;
        match spec_find_string(pre.selected_commits@, id, 0) {
            Some(i) => post.selected_commits@ == pre.selected_commits@.remove(i),
            None => post.selected_commits@.len() == pre.selected_commits@.len() + 1
                && post.selected_commits@.last()@ == id && post.selected_commits@.drop_last()
                == pre.selected_commits@,
        }
    })
}

/// How one key press moves the popup, key by key.
pub open spec fn cherry_pick_step(
    pre: CherryPickPopup,
    post: CherryPickPopup,
    ev: KeyEvent,
    actions: Seq<Action>,
) -> bool {
    if !pre.visible {
        post == pre && actions.len() == 0
    } else {
        match ev.code {
            KeyCode::Char(c) => {
                &&& actions.len() == 0
                &&& if c == 'j' && ev.modifiers == KeyModifiers::Empty {
                    scrolled_down(pre, post, 1)
                } else if c == 'k' && ev.modifiers == KeyModifiers::Empty {
                    scrolled_up(pre, post, 1)
                } else if c == 'd' && ev.modifiers == KeyModifiers::Control {
                    scrolled_down(pre, post, 10)
                } else if c == 'u' && ev.modifiers == KeyModifiers::Control {
                    scrolled_up(pre, post, 10)
                } else if c == 's' {
                    selection_toggled(pre, post)
                } else {
                    post == pre
                }
            },
            KeyCode::Esc => {
                &&& post.visible == false
                &&& post.selected_commits@.len() == 0
                &&& post.commits == pre.commits
                &&& post.position == pre.position
                &&& post.state == pre.state
                &&& actions =~= seq![
                    Action::Emit(ProgramEvent::Focus(ComponentType::BranchComponent)),
                ]
            },
            KeyCode::Enter => {
                &&& post.selected_commits@.len() == 0
                &&& post.commits == pre.commits
                &&& post.position == pre.position
                &&& post.state == pre.state
                &&& post.visible == pre.visible
                &&& actions =~= seq![
                    Action::Backend(BackendRequest::CherryPick(pre.selected_commits)),
                ]
            },
            _ => post == pre && actions.len() == 0,
        }
    }
}

} // verus!
