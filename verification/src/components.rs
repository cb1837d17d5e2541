//! What every screen of the dashboard shares: the focus-target type, the
//! scrolling contract of list-backed screens, and popup geometry.

pub mod branch_popup;
pub mod branches;
pub mod cherry_pick_popup;
pub mod commit_popup;
pub mod diff;
pub mod error_popup;
pub mod files;
pub mod log;
pub mod log_popup;
pub mod message_popup;
pub mod push_popup;
pub mod remote_popup;
pub mod status;

use crate::git::diff::DiffComponentType;
use crate::git::log::Commit;
use vstd::prelude::*;

verus! {

/// Names the screen or popup that owns keyboard focus.  Payload variants
/// carry the value injected into the popup when it gains focus.
#[derive(Clone, Debug)]
pub enum ComponentType {
    BranchComponent,
    BranchPopupComponent,
    CommitComponent,
    ErrorComponent,
    FilesComponent,
    LogComponent,
    RemotePopupComponent,
    CherryPickPopup(Vec<Commit>),
    DiffComponent(DiffComponentType),
    FullLogComponent(Commit),
    MessageComponent(String),
    NoFocus,
}

/// The payload-free identity of a focus target, used to state which screens
/// a transition may touch.
pub ghost enum TargetKind {
    Branches,
    BranchPopup,
    CommitPopup,
    ErrorPopup,
    Files,
    Log,
    RemotePopup,
    CherryPick,
    Diff,
    StagedDiff,
    FullLog,
    Message,
    NoTarget,
}

pub open spec fn target_kind(c: ComponentType) -> TargetKind {
    match c {
        ComponentType::BranchComponent => TargetKind::Branches,
        ComponentType::BranchPopupComponent => TargetKind::BranchPopup,
        ComponentType::CommitComponent => TargetKind::CommitPopup,
        ComponentType::ErrorComponent => TargetKind::ErrorPopup,
        ComponentType::FilesComponent => TargetKind::Files,
        ComponentType::LogComponent => TargetKind::Log,
        ComponentType::RemotePopupComponent => TargetKind::RemotePopup,
        ComponentType::CherryPickPopup(_) => TargetKind::CherryPick,
        ComponentType::DiffComponent(t) => match t {
            DiffComponentType::Diff => TargetKind::Diff,
            DiffComponentType::Staged => TargetKind::StagedDiff,
        },
        ComponentType::FullLogComponent(_) => TargetKind::FullLog,
        ComponentType::MessageComponent(_) => TargetKind::Message,
        ComponentType::NoFocus => TargetKind::NoTarget,
    }
}

/// The focus targets that overlay the main view and take input exclusively.
pub open spec fn is_popup_target(k: TargetKind) -> bool {
    match k {
        TargetKind::BranchPopup => true,
        TargetKind::CommitPopup => true,
        TargetKind::ErrorPopup => true,
        TargetKind::RemotePopup => true,
        TargetKind::CherryPick => true,
        TargetKind::FullLog => true,
        TargetKind::Message => true,
        _ => false,
    }
}

/// A list-backed screen that tracks a selected position and mirrors it into
/// its render selection.
pub trait ScrollableComponent: Sized {
    /// Number of items in the scrolled list.
    spec fn spec_list_length(&self) -> nat;

    /// The tracked position.
    spec fn spec_position(&self) -> nat;

    /// The component with its tracked position replaced.
    spec fn spec_with_position(&self, p: nat) -> Self;

    /// The component with its render selection replaced.
    spec fn spec_with_state(&self, p: nat) -> Self;

    fn get_list_length(&self) -> (n: usize)
        ensures
            n as nat == self.spec_list_length(),
    ;

    fn get_position(&self) -> (p: usize)
        ensures
            p as nat == self.spec_position(),
    ;

    fn set_position(&mut self, position: usize)
        ensures
            *final(self) == old(self).spec_with_position(position as nat),
    ;

    fn set_state(&mut self, position: usize)
        ensures
            *final(self) == old(self).spec_with_state(position as nat),
    ;

    /// Move the selection toward the top, clamped at the first item.
    fn scroll_up(&mut self, amount: usize)
        ensures
            ({
                let p = if old(self).spec_position() >= amount as nat {
                    (old(self).spec_position() - amount as nat) as nat
                } else {
                    0
                };
                *final(self) == old(self).spec_with_position(p).spec_with_state(p)
            }),
    {
        let position = self.get_position().saturating_sub(amount);
        self.set_position(position);
        self.set_state(position)
    }

    /// Move the selection toward the end, clamped at the last item; on an
    /// empty list nothing moves.
    fn scroll_down(&mut self, amount: usize)
        ensures
            old(self).spec_list_length() == 0 ==> *final(self) == *old(self),
            old(self).spec_list_length() > 0 ==> ({
                let advanced = crate::list_window::clamped_add(
                    old(self).spec_position() as int,
                    amount as int,
                );
                let p = crate::list_window::min_int(
                    advanced,
                    old(self).spec_list_length() as int - 1,
                ) as nat;
                *final(self) == old(self).spec_with_position(p).spec_with_state(p)
            }),
    {
        let len = self.get_list_length();
        if len == 0 {
            return ;
        }
        let position = max(self.get_position().saturating_add(amount), len - 1);
        self.set_position(position);
        self.set_state(position);
    }

    /// Put the selection back on the first item.
    fn reset_state(&mut self)
        ensures
            *final(self) == old(self).spec_with_position(0).spec_with_state(0),
    {
        self.set_position(0);
        self.set_state(0);
    }
}

/// The component after `scroll_up(amount)`: the selection moved toward the
/// top, clamped at the first item, and mirrored into the render selection.
pub open spec fn scrolled_up<T: ScrollableComponent>(pre: T, post: T, amount: nat) -> bool {
    let p = if pre.spec_position() >= amount {
        (pre.spec_position() - amount) as nat
    } else {
        0
    };
    post == pre.spec_with_position(p).spec_with_state(p)
}

/// The component after `scroll_down(amount)`: the selection moved toward
/// the end, clamped at the last item; on an empty list nothing moved.
pub open spec fn scrolled_down<T: ScrollableComponent>(pre: T, post: T, amount: nat) -> bool {
    if pre.spec_list_length() == 0 {
        post == pre
    } else {
        let p = crate::list_window::min_int(
            crate::list_window::clamped_add(pre.spec_position() as int, amount as int),
            pre.spec_list_length() as int - 1,
        ) as nat;
        post == pre.spec_with_position(p).spec_with_state(p)
    }
}

/// The smaller of the two arguments: `amount`, clamped at `cap`.
fn max(amount: usize, cap: usize) -> (r: usize)
    ensures
        r == crate::list_window::min_int(amount as int, cap as int),
{
    if amount > cap {
        cap
    } else {
        amount
    }
}

/// A rectangle of the terminal, in cells.
#[derive(Clone, Copy, Debug, PartialEq)]
pub struct Rect {
    pub x: u16,
    pub y: u16,
    pub width: u16,
    pub height: u16,
}

/// The `x`-by-`y` rectangle centered inside `r`, where popups are drawn.
pub fn centered_rect(x: u16, y: u16, r: Rect) -> (res: Rect)
    requires
        x <= r.width,
        y <= r.height,
        r.x + r.width <= u16::MAX,
        r.y + r.height <= u16::MAX,
    ensures
        res.width == x,
        res.height == y,
        res.x == r.x + (r.width - x) / 2,
        res.y == r.y + (r.height - y) / 2,
{
    Rect { x: r.x + (r.width - x) / 2, y: r.y + (r.height - y) / 2, width: x, height: y }
}

} // verus!
