//! The overlay shown while a push runs.

use crate::app::Action;
use crate::error::Error;
use crate::keys::{KeyCode, KeyEvent, KeyModifiers};
use vstd::prelude::*;

verus! {

pub struct PushPopup {
    pub visible: bool,
    pub message: String,
}

impl PushPopup {
    pub fn new() -> (p: Self)
        ensures
            !p.visible,
            p.message@ == "Pushing..."@,
    {
        Self { visible: false, message: "Pushing...".to_owned() }
    }

    pub fn visible(&self) -> (v: bool)
        ensures
            v == self.visible,
    {
        self.visible
    }

    pub fn set_message(&mut self, message: &str)
        ensures
            final(self).message@ == message@,
            final(self).visible == old(self).visible,
    {
        self.message = message.to_owned();
    }

    /// Control-q dismisses the popup; every other key is ignored.
    pub fn handle_event(&mut self, ev: KeyEvent) -> (r: Result<Vec<Action>, Error>)
        ensures
            r matches Ok(actions) && push_popup_step(*old(self), *final(self), ev, actions@),
    {
        match ev.code {
            KeyCode::Char(c) => {
                if c == 'q' && matches!(ev.modifiers, KeyModifiers::Control) {
                    self.focus(false);
                }
            },
            _ => {},
        }
        Ok(Vec::new())
    }

    /// Gaining or losing focus also puts the default message back.
    pub fn focus(&mut self, focus: bool)
        ensures
            final(self).visible == focus,
            final(self).message@ == "Pushing..."@,
    {
        self.message = "Pushing...".to_owned();
        self.visible = focus;
    }
}

/// How one key press moves the popup: control-q dismisses it and restores
/// the default message, every other key leaves it alone, and nothing is
/// ever asked for.
pub open spec fn push_popup_step(
    pre: PushPopup,
    post: PushPopup,
    ev: KeyEvent,
    actions: Seq<Action>,
) -> bool {
    &&& actions.len() == 0
    &&& (ev.code == KeyCode::Char('q') && ev.modifiers == KeyModifiers::Control ==> post.visible
        == false && post.message@ == "Pushing..."@)
    &&& (!(ev.code == KeyCode::Char('q') && ev.modifiers == KeyModifiers::Control) ==> post == pre)
}

} // verus!
