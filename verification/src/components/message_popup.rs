//! A transient message overlay ("Pushing", "Fetch Successfull!", ...).

use crate::app::Action;
use crate::error::Error;
use crate::keys::{KeyCode, KeyEvent, KeyModifiers};
use vstd::prelude::*;

verus! {

pub struct MessagePopup {
    pub message: String,
    pub visible: bool,
}

impl MessagePopup {
    pub fn new() -> (p: Self)
        ensures
            p.message@.len() == 0,
            !p.visible,
    {
        Self { message: String::new(), visible: false }
    }

    pub fn visible(&self) -> (v: bool)
        ensures
            v == self.visible,
    {
        self.visible
    }

    pub fn set_message(&mut self, message: &str)
        ensures
            final(self).message@ == message@,
            final(self).visible == old(self).visible,
    {
        self.message = message.to_owned();
    }

    /// Control-q dismisses the popup; every other key is ignored.
    pub fn handle_event(&mut self, ev: KeyEvent) -> (r: Result<Vec<Action>, Error>)
        ensures
            r matches Ok(actions) && message_popup_step(*old(self), *final(self), ev, actions@),
    {
        match ev.code {
            KeyCode::Char(c) => {
                if c == 'q' && matches!(ev.modifiers, KeyModifiers::Control) {
                    self.focus(false);
                }
            },
            _ => {},
        }
        Ok(Vec::new())
    }

    pub fn focus(&mut self, focus: bool)
        ensures
            *final(self) == (MessagePopup { visible: focus, ..*old(self) }),
    {
        self.visible = focus;
    }
}

/// How one key press moves the popup: control-q dismisses it, every other
/// key leaves it alone, and nothing is ever asked for.
pub open spec fn message_popup_step(
    pre: MessagePopup,
    post: MessagePopup,
    ev: KeyEvent,
    actions: Seq<Action>,
) -> bool {
    &&& actions.len() == 0
    &&& (ev.code == KeyCode::Char('q') && ev.modifiers == KeyModifiers::Control ==> post == (
    MessagePopup { visible: false, ..pre }))
    &&& (!(ev.code == KeyCode::Char('q') && ev.modifiers == KeyModifiers::Control) ==> post == pre)
}

} // verus!
