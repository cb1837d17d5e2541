//! The branch screen: local and remote branches ordered by the age of
//! their last commit, with checkout, merge, pull and cherry-pick at a key
//! press.

use crate::app::{Action, BackendRequest, GitEvent, ProgramEvent};
use crate::components::{scrolled_down, scrolled_up, ComponentType, ScrollableComponent};
use crate::error::Error;
use crate::git::branch::{branch_age, Branch, BranchType};
use crate::keys::{KeyCode, KeyEvent};
use vstd::multiset::Multiset;
use vstd::prelude::*;

verus! {

pub struct BranchComponent {
    pub branches: Vec<Branch>,
    pub focused: bool,
    pub focused_tab: BranchType,
    pub position: usize,
    pub state: Option<usize>,
}

/// The branches of the chosen tab, in their reported order.
pub open spec fn tab_filter(bs: Seq<Branch>, tab: BranchType) -> Seq<Branch> {
    bs.filter(|b: Branch| b.branch_type == tab)
}

/// Ages never decrease along the list.
pub open spec fn sorted_by_age(bs: Seq<Branch>) -> bool {
    forall|i: int, j: int|
        0 <= i < j < bs.len() ==> branch_age(#[trigger] bs[i]) <= branch_age(#[trigger] bs[j])
}

fn branch_age_of(b: &Branch) -> (a: u64)
    ensures
        a == branch_age(*b),
{
    b.last_commit.time.time_since_commit.0
}

/// Keep only the branches of the chosen tab, in order.
fn filter_tab(branches: Vec<Branch>, tab: BranchType) -> (r: Vec<Branch>)
    ensures
        r@ == tab_filter(branches@, tab),
{
    let ghost orig = branches@;
    let mut branches = branches;
    let mut r: Vec<Branch> = Vec::new();
    proof {
        reveal(Seq::filter);
        assert(tab_filter(orig.take(0), tab) =~= Seq::<Branch>::empty());
    }
    let ghost k: int = 0;
    while branches.len() > 0
        invariant
            0 <= k <= orig.len(),
            branches@ =~= orig.skip(k),
            r@ == tab_filter(orig.take(k), tab),
        decreases orig.len() - k,
    {
        let b = branches.remove(0);
        proof {
            assert(b == orig[k]);
            assert(branches@ =~= orig.skip(k + 1));
        }
        let keep = match (b.branch_type, tab) {
            (BranchType::Local, BranchType::Local) => true,
            (BranchType::Remote, BranchType::Remote) => true,
            _ => false,
        };
        if keep {
            r.push(b);
        }
        proof {
            reveal(Seq::filter);
            let pred = |x: Branch| x.branch_type == tab;
            assert(orig.take(k + 1).drop_last() =~= orig.take(k));
            assert(orig.take(k + 1).last() == orig[k]);
            assert(pred(orig[k]) == (orig[k].branch_type == tab));
            assert(keep == (b.branch_type == tab));
            assert(r@ == tab_filter(orig.take(k + 1), tab));
            k = k + 1;
        }
    }
    proof {
        assert(orig.take(orig.len() as int) =~= orig);
    }
    r
}

/// Order the branches by age, oldest commit last, keeping every entry.
fn sort_by_age(v: Vec<Branch>) -> (r: Vec<Branch>)
    ensures
        r@.to_multiset() == v@.to_multiset(),
        sorted_by_age(r@),
{
    broadcast use vstd::seq_lib::to_multiset_remove, vstd::seq_lib::to_multiset_insert, vstd::seq_lib::group_to_multiset_ensures, vstd::multiset::group_multiset_axioms;

    let ghost orig = v@;
    let mut rest = v;
    let mut sorted: Vec<Branch> = Vec::new();
    proof {
        assert(sorted@.to_multiset().add(rest@.to_multiset()) =~= orig.to_multiset());
    }
    while rest.len() > 0
        invariant
            sorted_by_age(sorted@),
            sorted@.to_multiset().add(rest@.to_multiset()) == orig.to_multiset(),
        decreases rest@.len(),
    {
        let ghost sorted_pre = sorted@;
        let ghost rest_pre = rest@;
        let b = rest.remove(0);
        let age = branch_age_of(&b);
        let mut k: usize = 0;
        while k < sorted.len() && branch_age_of(&sorted[k]) <= age
            invariant
                0 <= k <= sorted@.len(),
                sorted@ == sorted_pre,
                forall|j: int| 0 <= j < k ==> branch_age(#[trigger] sorted@[j]) <= age,
            decreases sorted@.len() - k,
        {
            k = k + 1;
        }
        sorted.insert(k, b);
        proof {
            assert(sorted@ == sorted_pre.insert(k as int, b));
            assert forall|i: int, j: int| 0 <= i < j < sorted@.len() implies branch_age(
                #[trigger] sorted@[i],
            ) <= branch_age(#[trigger] sorted@[j]) by {
                assert(forall|m: int|
                    0 <= m < k ==> #[trigger] sorted@[m] == sorted_pre[m]);
                assert(sorted@[k as int] == b);
                assert(forall|m: int|
                    k < m < sorted@.len() ==> #[trigger] sorted@[m] == sorted_pre[m - 1]);
            }
            assert(rest_pre.contains(b)) by {
                assert(rest_pre[0] == b);
            }
            vstd::seq_lib::to_multiset_insert(sorted_pre, k as int, b);
            vstd::seq_lib::to_multiset_remove(rest_pre, 0);
            assert(sorted@.to_multiset() == sorted_pre.to_multiset().insert(b));
            assert(rest@.to_multiset() == rest_pre.to_multiset().remove(b));
            rest_pre.to_multiset_ensures();
            assert(rest_pre.to_multiset().count(b) > 0);
            assert forall|x: Branch|
                sorted@.to_multiset().add(rest@.to_multiset()).count(x) == orig.to_multiset().count(
                    x,
                ) by {
                if x == b {
                    assert(Multiset::singleton(b).count(x) == 1);
                } else {
                    assert(Multiset::singleton(b).count(x) == 0);
                }
                assert(sorted@.to_multiset().count(x) == sorted_pre.to_multiset().count(x)
                    + Multiset::singleton(b).count(x));
                assert(rest@.to_multiset().count(x) == rest_pre.to_multiset().count(x)
                    - Multiset::singleton(b).count(x));
            }
            assert(sorted@.to_multiset().add(rest@.to_multiset()) =~= orig.to_multiset());
        }
    }
    proof {
        assert(rest@.to_multiset() =~= Multiset::<Branch>::empty());
        assert(sorted@.to_multiset() =~= orig.to_multiset());
    }
    sorted
}

impl BranchComponent {
    pub fn new() -> (c: Self)
        ensures
            c.branches@.len() == 0,
            !c.focused,
            c.focused_tab == BranchType::Local,
            c.position == 0,
            c.state == Some(0usize),
    {
        Self {
            branches: Vec::new(),
            focused: false,
            focused_tab: BranchType::Local,
            position: 0,
            state: Some(0),
        }
    }

    /// Adopt the branch list the backend read on this tick: keep the
    /// focused tab's branches, ordered by the age of their last commit.
    pub fn update(&mut self, branches: Vec<Branch>)
        ensures
            final(self).focused == old(self).focused,
            final(self).focused_tab == old(self).focused_tab,
            final(self).position == old(self).position,
            final(self).state == old(self).state,
            final(self).branches@.to_multiset() == tab_filter(
                branches@,
                old(self).focused_tab,
            ).to_multiset(),
            sorted_by_age(final(self).branches@),
    {
        let filtered = filter_tab(branches, self.focused_tab);
        self.branches = sort_by_age(filtered);
    }

    /// Route one key press.  j/k move the selection, h/l switch between the
    /// local and the remote tab, and the remaining keys ask the backend for
    /// work on the branch under the cursor.
    pub fn handle_event(&mut self, ev: KeyEvent) -> (r: Result<Vec<Action>, Error>)
        ensures
            r matches Ok(a) && branch_component_step(*old(self), *final(self), ev, a@),
    {
        if !self.focused {
            return Ok(Vec::new());
        }
        let mut actions: Vec<Action> = Vec::new();
        match ev.code {
            KeyCode::Char(c) => {
                if c == 'j' {
                    self.scroll_down(1);
                } else if c == 'k' {
                    self.scroll_up(1);
                } else if c == 'h' || c == 'l' {
                    self.focused_tab = if c == 'h' {
                        BranchType::Local
                    } else {
                        BranchType::Remote
                    };
                    self.reset_state();
                    actions.push(Action::Emit(ProgramEvent::Git(GitEvent::RefreshBranchList)));
                } else if c == 'c' {
                    if self.position < self.branches.len() {
                        let b = &self.branches[self.position];
                        let name = b.name.clone();
                        let req = match b.branch_type {
                            BranchType::Local => BackendRequest::CheckoutLocalBranch(name),
                            BranchType::Remote => BackendRequest::CheckoutRemoteBranch(name),
                        };
                        actions.push(Action::Backend(req));
                    }
                } else if c == 'C' {
                    if self.position < self.branches.len() {
                        let id = self.branches[self.position].last_commit.id().clone();
                        actions.push(
                            Action::Backend(BackendRequest::LoadCherryPickCandidates(id)),
                        );
                    }
                } else if c == 'd' {
                    if self.position < self.branches.len() {
                        let name = self.branches[self.position].name.clone();
                        actions.push(Action::Backend(BackendRequest::DeleteBranch(name)));
                    }
                } else if c == 'f' {
                    actions.push(Action::Backend(BackendRequest::Fetch));
                } else if c == 'm' {
                    if self.position < self.branches.len() {
                        let name = self.branches[self.position].name.clone();
                        actions.push(Action::Backend(BackendRequest::Merge(name)));
                    }
                } else if c == 'n' {
                    actions.push(
                        Action::Emit(ProgramEvent::Focus(ComponentType::BranchPopupComponent)),
                    );
                } else if c == 'P' {
                    if self.position < self.branches.len() {
                        let name = self.branches[self.position].name.clone();
                        actions.push(Action::Backend(BackendRequest::PullBranch(name)));
                    }
                } else if c == 'p' {
                    actions.push(Action::Backend(BackendRequest::PullHead));
                }
                Ok(actions)
            },
            _ => Ok(actions),
        }
    }

    pub fn focus(&mut self, focus: bool)
        ensures
            *final(self) == (BranchComponent { focused: focus, ..*old(self) }),
    {
        self.focused = focus;
    }
}

impl ScrollableComponent for BranchComponent {
    open spec fn spec_list_length(&self) -> nat {
        self.branches@.len()
    }

    open spec fn spec_position(&self) -> nat {
        self.position as nat
    }

    open spec fn spec_with_position(&self, p: nat) -> Self {
        BranchComponent { position: p as usize, ..*self }
    }

    open spec fn spec_with_state(&self, p: nat) -> Self {
        BranchComponent { state: Some(p as usize), ..*self }
    }

    fn get_list_length(&self) -> usize {
        self.branches.len()
    }

    fn get_position(&self) -> usize {
        self.position
    }

    fn set_position(&mut self, position: usize) {
        self.position = position;
    }

    fn set_state(&mut self, position: usize) {
        self.state = Some(position);
    }
}

/// The request a branch key makes for the branch under the cursor, or
/// nothing when the cursor is past the list.
pub open spec fn on_selected_branch(
    pre: BranchComponent,
    actions: Seq<Action>,
    wanted: spec_fn(Branch) -> BackendRequest,
) -> bool {
    if pre.position < pre.branches@.len() {
        actions =~= seq![Action::Backend(wanted(pre.branches@[pre.position as int]))]
    } else {
        actions.len() == 0
    }
}

/// How one key press moves the branch screen, key by key.
pub open spec fn branch_component_step(
    pre: BranchComponent,
    post: BranchComponent,
    ev: KeyEvent,
    actions: Seq<Action>,
) -> bool {
    if !pre.focused {
        post == pre && actions.len() == 0
    } else {
        match ev.code {
            KeyCode::Char(c) => {
                if c == 'j' {
                    scrolled_down(pre, post, 1) && actions.len() == 0
                } else if c == 'k' {
                    scrolled_up(pre, post, 1) && actions.len() == 0
                } else if c == 'h' || c == 'l' {
                    &&& post == (BranchComponent {
                        focused_tab: if c == 'h' {
                            BranchType::Local
                        } else {
                            BranchType::Remote
                        },
                        position: 0,
                        state: Some(0usize),
                        ..pre
                    })
                    &&& actions =~= seq![
                        Action::Emit(ProgramEvent::Git(GitEvent::RefreshBranchList)),
                    ]
                } else if c == 'c' {
                    post == pre && on_selected_branch(
                        pre,
                        actions,
                        |b: Branch|
                            if b.branch_type == BranchType::Local {
                                BackendRequest::CheckoutLocalBranch(b.name)
                            } else {
                                BackendRequest::CheckoutRemoteBranch(b.name)
                            },
                    )
                } else if c == 'C' {
                    post == pre && on_selected_branch(
                        pre,
                        actions,
                        |b: Branch| BackendRequest::LoadCherryPickCandidates(b.last_commit.id),
                    )
                } else if c == 'd' {
                    post == pre && on_selected_branch(
                        pre,
                        actions,
                        |b: Branch| BackendRequest::DeleteBranch(b.name),
                    )
                } else if c == 'f' {
                    post == pre && actions =~= seq![Action::Backend(BackendRequest::Fetch)]
                } else if c == 'm' {
                    post == pre && on_selected_branch(
                        pre,
                        actions,
                        |b: Branch| BackendRequest::Merge(b.name),
                    )
                } else if c == 'n' {
                    post == pre && actions =~= seq![
                        Action::Emit(ProgramEvent::Focus(ComponentType::BranchPopupComponent)),
                    ]
                } else if c == 'P' {
                    post == pre && on_selected_branch(
                        pre,
                        actions,
                        |b: Branch| BackendRequest::PullBranch(b.name),
                    )
                } else if c == 'p' {
                    post == pre && actions =~= seq![Action::Backend(BackendRequest::PullHead)]
                } else {
                    post == pre && actions.len() == 0
                }
            },
            _ => post == pre && actions.len() == 0,
        }
    }
}

} // verus!
