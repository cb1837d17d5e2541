//! The popup that shows one commit in full.

use crate::app::{Action, ProgramEvent};
use crate::components::ComponentType;
use crate::error::Error;
use crate::git::log::Commit;
use crate::keys::{KeyCode, KeyEvent};
use vstd::prelude::*;

verus! {

pub struct LogPopup {
    pub commit: Commit,
    pub visible: bool,
}

impl LogPopup {
    pub fn new() -> (p: Self)
        ensures
            !p.visible,
    {
        Self { commit: Commit::new(), visible: false }
    }

    pub fn visible(&self) -> (v: bool)
        ensures
            v == self.visible,
    {
        self.visible
    }

    pub fn set_commit(&mut self, commit: Commit)
        ensures
            final(self).commit == commit,
            final(self).visible == old(self).visible,
    {
        self.commit = commit;
    }

    /// Escape closes the popup and hands focus back to the commit log;
    /// every other key is ignored.
    pub fn handle_event(&mut self, ev: KeyEvent) -> (r: Result<Vec<Action>, Error>)
        ensures
            r matches Ok(actions) && log_popup_step(*old(self), *final(self), ev, actions@),
    {
        let mut actions: Vec<Action> = Vec::new();
        if matches!(ev.code, KeyCode::Esc) {
            actions.push(Action::Emit(ProgramEvent::Focus(ComponentType::LogComponent)));
            self.visible = false;
        }
        Ok(actions)
    }

    pub fn focus(&mut self, focus: bool)
        ensures
            *final(self) == (LogPopup { visible: focus, ..*old(self) }),
    {
        self.visible = focus;
    }
}

/// How one key press moves the popup: escape closes it and hands focus
/// back to the commit log; every other key is ignored.
pub open spec fn log_popup_step(
    pre: LogPopup,
    post: LogPopup,
    ev: KeyEvent,
    actions: Seq<Action>,
) -> bool {
    &&& (ev.code == KeyCode::Esc ==> {
        &&& post.visible == false
        &&& post.commit == pre.commit
        &&& actions =~= seq![Action::Emit(ProgramEvent::Focus(ComponentType::LogComponent))]
    })
    &&& (ev.code != KeyCode::Esc ==> post == pre && actions.len() == 0)
}

} // verus!
