//! The diff screen: a scroll window over the rendered diff lines of the
//! working tree or of the index.

use crate::app::Action;
use crate::error::Error;
use crate::git::diff::{DiffComponentType, DiffLine};
use crate::keys::{KeyCode, KeyEvent, KeyModifiers};
use crate::list_window::{reset_model, scroll_down_model, scroll_up_model, ListWindow, ScrollDirection, WindowModel};
use vstd::prelude::*;

verus! {

pub struct DiffComponent {
    pub diffs: Vec<DiffLine>,
    pub diff_type: DiffComponentType,
    pub first_update: bool,
    pub focused: bool,
    pub state: Option<usize>,
    pub window: ListWindow,
}

/// The render selection the window reports: its position, or none on an
/// empty list.
pub open spec fn window_selection(w: WindowModel) -> Option<usize> {
    if w.size == 0 {
        None
    } else {
        Some(w.position as usize)
    }
}

impl DiffComponent {
    /// A diff screen over the lines the backend rendered first.
    pub fn new(diff_type: DiffComponentType, diffs: Vec<DiffLine>) -> (c: Self)
        ensures
            c.diffs == diffs,
            c.diff_type == diff_type,
            c.first_update,
            !c.focused,
            c.state is None,
            c.window@ == (WindowModel {
                min: 0,
                max: 0,
                position: 0,
                size: diffs@.len() as int,
                height: 0,
            }),
    {
        let len = diffs.len();
        Self {
            diffs,
            diff_type,
            first_update: true,
            focused: false,
            state: None,
            window: ListWindow::new(0, 0, 0, len, 0),
        }
    }

    /// Adopt the lines the backend rendered on this tick.  The very first
    /// tick with a real viewport re-anchors the window; after that the
    /// window is re-anchored only when the diff changes length.
    pub fn update(&mut self, diff: Vec<DiffLine>)
        ensures
            diff_updated(*old(self), *final(self), diff),
    {
        if self.first_update && self.window.height() > 0 {
            self.first_update = false;
            self.window.reset();
        }
        if diff.len() != self.diffs.len() {
            self.render_diff();
            self.diffs = diff;
            let len = self.diffs.len();
            self.window.set_size(len);
        }
    }

    /// Re-anchor the window to the top and mirror its selection.
    fn render_diff(&mut self)
        ensures
            final(self).window@ == reset_model(old(self).window@),
            final(self).state == window_selection(final(self).window@),
            *final(self) == (DiffComponent {
                window: final(self).window,
                state: final(self).state,
                ..*old(self)
            }),
    {
        self.window.reset();
        self.state = self.window.position();
    }

    fn scroll_up(&mut self, amount: usize)
        ensures
            final(self).window@ == scroll_up_model(old(self).window@, amount as int),
            final(self).state == window_selection(final(self).window@),
            *final(self) == (DiffComponent {
                window: final(self).window,
                state: final(self).state,
                ..*old(self)
            }),
    {
        self.window.scroll(ScrollDirection::Up, amount);
        self.state = self.window.position();
    }

    fn scroll_down(&mut self, amount: usize)
        ensures
            final(self).window@ == scroll_down_model(old(self).window@, amount as int),
            final(self).state == window_selection(final(self).window@),
            *final(self) == (DiffComponent {
                window: final(self).window,
                state: final(self).state,
                ..*old(self)
            }),
    {
        self.window.scroll(ScrollDirection::Down, amount);
        self.state = self.window.position();
    }

    /// Route one key press: j/k scroll by a line, control-d/u by half a
    /// viewport.
    pub fn handle_event(&mut self, ev: KeyEvent) -> (r: Result<Vec<Action>, Error>)
        ensures
            r matches Ok(a) && diff_component_step(*old(self), *final(self), ev, a@),
    {
        if !self.focused {
            return Ok(Vec::new());
        }
        match ev.code {
            KeyCode::Char(c) => {
                if c == 'd' && matches!(ev.modifiers, KeyModifiers::Control) {
                    let height = self.window.height();
                    self.scroll_down(height / 2);
                } else if c == 'u' && matches!(ev.modifiers, KeyModifiers::Control) {
                    let height = self.window.height();
                    self.scroll_up(height / 2);
                } else if c == 'j' && !matches!(ev.modifiers, KeyModifiers::Control) {
                    self.scroll_down(1);
                } else if c == 'k' && !matches!(ev.modifiers, KeyModifiers::Control) {
                    self.scroll_up(1);
                }
            },
            _ => {},
        }
        Ok(Vec::new())
    }

    pub fn focus(&mut self, focus: bool)
        ensures
            *final(self) == (DiffComponent { focused: focus, ..*old(self) }),
    {
        self.focused = focus;
    }
}

/// The screen adopted the lines the backend rendered: the very first tick
/// with a real viewport re-anchors the window; after that the window is
/// re-anchored only when the diff changes length.
pub open spec fn diff_updated(pre: DiffComponent, post: DiffComponent, diff: Vec<DiffLine>) -> bool {
    &&& post.diff_type == pre.diff_type
    &&& post.focused == pre.focused
    &&& ({
        let anchored = pre.first_update && pre.window@.height >= 1;
        let wpre = if anchored {
            reset_model(pre.window@)
        } else {
            pre.window@
        };
        &&& post.first_update == (pre.first_update && !anchored)
        &&& if diff@.len() != pre.diffs@.len() {
            &&& post.window@ == (WindowModel { size: diff@.len() as int, ..reset_model(wpre) })
            &&& post.state == window_selection(reset_model(wpre))
            &&& post.diffs == diff
        } else {
            &&& post.window@ == wpre
            &&& post.state == pre.state
            &&& post.diffs == pre.diffs
        }
    })
}

/// The window scrolled and its selection was mirrored; everything else of
/// the screen stayed.
pub open spec fn window_scrolled(pre: DiffComponent, post: DiffComponent, w: WindowModel) -> bool {
    &&& post.window@ == w
    &&& post.state == window_selection(w)
    &&& post == (DiffComponent { window: post.window, state: post.state, ..pre })
}

/// How one key press moves the diff screen, key by key.
pub open spec fn diff_component_step(
    pre: DiffComponent,
    post: DiffComponent,
    ev: KeyEvent,
    actions: Seq<Action>,
) -> bool {
    &&& actions.len() == 0
    &&& if !pre.focused {
        post == pre
    } else {
        match ev.code {
            KeyCode::Char(c) => {
                if c == 'd' && ev.modifiers == KeyModifiers::Control {
                    window_scrolled(pre, post, scroll_down_model(pre.window@, pre.window.height as int / 2))
                } else if c == 'u' && ev.modifiers == KeyModifiers::Control {
                    window_scrolled(pre, post, scroll_up_model(pre.window@, pre.window.height as int / 2))
                } else if c == 'j' && !(ev.modifiers == KeyModifiers::Control) {
                    window_scrolled(pre, post, scroll_down_model(pre.window@, 1))
                } else if c == 'k' && !(ev.modifiers == KeyModifiers::Control) {
                    window_scrolled(pre, post, scroll_up_model(pre.window@, 1))
                } else {
                    post == pre
                }
            },
            _ => post == pre,
        }
    }
}

} // verus!
