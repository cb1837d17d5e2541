//! The popup that shows a failure's message until dismissed.

use crate::app::{Action, ProgramEvent};
use crate::components::ComponentType;
use crate::error::{Error, GitError};
use crate::keys::{KeyCode, KeyEvent};
use vstd::prelude::*;

verus! {

pub struct ErrorComponent {
    pub message: String,
    pub visible: bool,
}

impl ErrorComponent {
    pub fn new() -> (p: Self)
        ensures
            p.message@.len() == 0,
            !p.visible,
    {
        Self { message: String::new(), visible: false }
    }

    pub fn visible(&self) -> (v: bool)
        ensures
            v == self.visible,
    {
        self.visible
    }

    pub fn set_message(&mut self, message: String)
        ensures
            final(self).message == message,
            final(self).visible == old(self).visible,
    {
        self.message = message;
    }

    /// Adopt a backend error's user-facing message.
    pub fn set_git_error(&mut self, error: GitError)
        ensures
            final(self).message == error.message,
            final(self).visible == old(self).visible,
    {
        self.message = error.message;
    }

    /// Escape closes the popup, clears the message and hands focus back to
    /// the file screen; every other key is ignored.
    pub fn handle_event(&mut self, ev: KeyEvent) -> (r: Result<Vec<Action>, Error>)
        ensures
            r matches Ok(actions) && error_popup_step(*old(self), *final(self), ev, actions@),
    {
        let mut actions: Vec<Action> = Vec::new();
        if matches!(ev.code, KeyCode::Esc) {
            actions.push(Action::Emit(ProgramEvent::Focus(ComponentType::FilesComponent)));
            self.visible = false;
            self.message.clear();
        }
        Ok(actions)
    }

    pub fn focus(&mut self, focus: bool)
        ensures
            *final(self) == (ErrorComponent { visible: focus, ..*old(self) }),
    {
        self.visible = focus;
    }
}

/// How one key press moves the popup: escape empties and closes it and
/// hands focus back to the file screen; every other key is ignored.
pub open spec fn error_popup_step(
    pre: ErrorComponent,
    post: ErrorComponent,
    ev: KeyEvent,
    actions: Seq<Action>,
) -> bool {
    &&& (ev.code == KeyCode::Esc ==> {
        &&& post.visible == false
        &&& post.message@.len() == 0
        &&& actions =~= seq![Action::Emit(ProgramEvent::Focus(ComponentType::FilesComponent))]
    })
    &&& (ev.code != KeyCode::Esc ==> post == pre && actions.len() == 0)
}

} // verus!
