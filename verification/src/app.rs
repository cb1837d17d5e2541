//! The application engine: the event vocabulary, the focus router with its
//! exclusive-transfer discipline, and input dispatch.

use crate::components::branch_popup::{branch_popup_step, BranchPopup};
use crate::components::branches::{branch_component_step, BranchComponent};
use crate::components::cherry_pick_popup::{cherry_pick_step, CherryPickPopup};
use crate::components::commit_popup::{commit_popup_step, CommitPopup};
use crate::components::diff::{diff_component_step, DiffComponent};
use crate::components::error_popup::{error_popup_step, ErrorComponent};
use crate::components::files::{file_component_step, FileComponent};
use crate::components::log::{clone_commits, log_component_step, LogComponent};
use crate::components::log_popup::{log_popup_step, LogPopup};
use crate::components::message_popup::{message_popup_step, MessagePopup};
use crate::components::remote_popup::{remote_popup_step, RemotePopupComponent};
use crate::components::status::StatusComponent;
use crate::components::{is_popup_target, target_kind, ComponentType, TargetKind};
use crate::error::Error;
use crate::git::branch::Branch;
use crate::git::diff::{DiffComponentType, DiffLine, DiffWindow};
use crate::git::log::{commit_like, commits_like, Commit};
use crate::git::status::FileStatus;
use crate::keys::{KeyCode, KeyEvent};
use crate::Event;
use vstd::prelude::*;

verus! {

/// Notification that background git work finished.
pub enum GitEvent {
    FetchSuccess,
    PushSuccess,
    RefreshCommitLog,
    RefreshBranchList,
}

/// A message for the event loop, produced by screens and by background
/// operations.
pub enum ProgramEvent {
    ClearTerminal,
    Exit,
    Error(Error),
    Focus(ComponentType),
    Git(GitEvent),
}

/// One unit of repository work the engine asks the backend to perform.
/// The engine decides; the driver performs it against the real repository.
pub enum BackendRequest {
    AddRemote(String, String),
    CherryPick(Vec<String>),
    CheckoutLocalBranch(String),
    CheckoutRemoteBranch(String),
    Commit(String),
    CommitWithEditor,
    CreateAndCheckoutBranch(String),
    DeleteBranch(String),
    Fetch,
    LoadCherryPickCandidates(String),
    Merge(String),
    PullBranch(String),
    PullHead,
    Push,
    RevertCommit(String),
    StageAll,
    StageFile(String),
    UnstageAll,
    UnstageFile(String),
}

/// What a screen asks for in response to an input event: a message for the
/// event loop, or repository work for the backend.
pub enum Action {
    Emit(ProgramEvent),
    Backend(BackendRequest),
}

/// Which list the event loop must re-read outside the tick cadence.
pub enum RefreshKind {
    CommitLog,
    BranchList,
}

/// What the event loop does after digesting one message.
pub enum EventOutcome {
    ClearTerminal,
    Continue,
    Exit,
    Refresh(RefreshKind),
}

/// Everything the backend reads for one tick of the update cycle.
pub struct RepoSnapshot {
    pub branches: Vec<Branch>,
    pub commits: Vec<Commit>,
    pub diff: Vec<DiffLine>,
    pub files: Vec<FileStatus>,
    pub staged_diff: Vec<DiffLine>,
    pub stats: DiffWindow,
}

/// The engine state: every screen and popup, and the focus owner.
pub struct App {
    pub branches: BranchComponent,
    pub branch_popup: BranchPopup,
    pub cherry_pick_popup: CherryPickPopup,
    pub commit_popup: CommitPopup,
    pub diff: DiffComponent,
    pub diff_staged: DiffComponent,
    pub error_popup: ErrorComponent,
    pub files: FileComponent,
    pub focused_component: ComponentType,
    pub logs: LogComponent,
    pub log_popup: LogPopup,
    pub message_popup: MessagePopup,
    pub remote_popup: RemotePopupComponent,
    pub status: StatusComponent,
    pub repo_path: String,
}

/// Whether the screen named by `k` currently claims focus (for popups,
/// whether they are shown).
pub open spec fn screen_focused(app: App, k: TargetKind) -> bool {
    match k {
        TargetKind::Branches => app.branches.focused,
        TargetKind::BranchPopup => app.branch_popup.visible,
        TargetKind::CommitPopup => app.commit_popup.visible,
        TargetKind::ErrorPopup => app.error_popup.visible,
        TargetKind::Files => app.files.focused,
        TargetKind::Log => app.logs.focused,
        TargetKind::RemotePopup => app.remote_popup.visible,
        TargetKind::CherryPick => app.cherry_pick_popup.visible,
        TargetKind::Diff => app.diff.focused,
        TargetKind::StagedDiff => app.diff_staged.focused,
        TargetKind::FullLog => app.log_popup.visible,
        TargetKind::Message => app.message_popup.visible,
        TargetKind::NoTarget => false,
    }
}

/// Whether the screen named by `k` holds the same state in both engine
/// states.
pub open spec fn screen_eq(a: App, b: App, k: TargetKind) -> bool {
    match k {
        TargetKind::Branches => a.branches == b.branches,
        TargetKind::BranchPopup => a.branch_popup == b.branch_popup,
        TargetKind::CommitPopup => a.commit_popup == b.commit_popup,
        TargetKind::ErrorPopup => a.error_popup == b.error_popup,
        TargetKind::Files => a.files == b.files,
        TargetKind::Log => a.logs == b.logs,
        TargetKind::RemotePopup => a.remote_popup == b.remote_popup,
        TargetKind::CherryPick => a.cherry_pick_popup == b.cherry_pick_popup,
        TargetKind::Diff => a.diff == b.diff,
        TargetKind::StagedDiff => a.diff_staged == b.diff_staged,
        TargetKind::FullLog => a.log_popup == b.log_popup,
        TargetKind::Message => a.message_popup == b.message_popup,
        TargetKind::NoTarget => true,
    }
}

/// The payload carried by the target was injected into its screen.
pub open spec fn payload_injected(post: App, target: ComponentType) -> bool {
    match target {
        ComponentType::MessageComponent(m) => post.message_popup.message@ == m@,
        ComponentType::CherryPickPopup(logs) => commits_like(
            post.cherry_pick_popup.commits@,
            logs@,
        ),
        ComponentType::FullLogComponent(c) => commit_like(post.log_popup.commit, c),
        _ => true,
    }
}

/// The screen named by `k` was told it gained or lost focus, and nothing
/// else of it changed (beyond an injected payload).
pub open spec fn screen_after_focus(pre: App, post: App, k: TargetKind, gained: bool) -> bool {
    match k {
        TargetKind::Branches => post.branches == (BranchComponent {
            focused: gained,
            ..pre.branches
        }),
        TargetKind::BranchPopup => post.branch_popup == (BranchPopup {
            visible: gained,
            ..pre.branch_popup
        }),
        TargetKind::CommitPopup => post.commit_popup == (CommitPopup {
            visible: gained,
            ..pre.commit_popup
        }),
        TargetKind::ErrorPopup => post.error_popup == (ErrorComponent {
            visible: gained,
            ..pre.error_popup
        }),
        TargetKind::Files => post.files == (FileComponent { focused: gained, ..pre.files }),
        TargetKind::Log => post.logs == (LogComponent { focused: gained, ..pre.logs }),
        TargetKind::RemotePopup => post.remote_popup == (RemotePopupComponent {
            visible: gained,
            ..pre.remote_popup
        }),
        TargetKind::CherryPick => {
            &&& post.cherry_pick_popup.visible == gained
            &&& post.cherry_pick_popup.position == pre.cherry_pick_popup.position
            &&& post.cherry_pick_popup.selected_commits == pre.cherry_pick_popup.selected_commits
            &&& post.cherry_pick_popup.state == pre.cherry_pick_popup.state
        },
        TargetKind::Diff => post.diff == (DiffComponent { focused: gained, ..pre.diff }),
        TargetKind::StagedDiff => post.diff_staged == (DiffComponent {
            focused: gained,
            ..pre.diff_staged
        }),
        TargetKind::FullLog => post.log_popup.visible == gained,
        TargetKind::Message => post.message_popup.visible == gained,
        TargetKind::NoTarget => true,
    }
}

/// One half of a focus transfer: the named screen was told it gained or
/// lost focus (after its payload, if any, was injected), every other screen
/// kept its state, and the target was recorded.
pub open spec fn focus_half(pre: App, post: App, target: ComponentType, gained: bool) -> bool {
    let tk = target_kind(target);
    &&& post.focused_component == target
    &&& (forall|k: TargetKind| k != tk ==> screen_eq(pre, post, k))
    &&& screen_after_focus(pre, post, tk, gained)
    &&& (tk != TargetKind::NoTarget ==> screen_focused(post, tk) == gained)
    &&& payload_injected(post, target)
    &&& post.repo_path == pre.repo_path
    &&& post.status == pre.status
}

/// A whole focus transfer to `target`: the previously focused screen lost
/// focus, the target's screen received its payload and gained focus — in
/// that order — and no other screen observed any change.
pub open spec fn focus_transition(pre: App, post: App, target: ComponentType) -> bool {
    let tk = target_kind(target);
    let ck = target_kind(pre.focused_component);
    &&& post.focused_component == target
    &&& (forall|k: TargetKind| k != tk && k != ck ==> screen_eq(pre, post, k))
    &&& screen_after_focus(pre, post, tk, true)
    &&& (ck != tk ==> screen_after_focus(pre, post, ck, false))
    &&& (tk != TargetKind::NoTarget ==> screen_focused(post, tk))
    &&& (ck != tk && ck != TargetKind::NoTarget ==> !screen_focused(post, ck))
    &&& payload_injected(post, target)
    &&& post.repo_path == pre.repo_path
    &&& post.status == pre.status
}

/// Whether any popup overlay is shown, which makes input modal.
pub open spec fn spec_popup_visible(app: App) -> bool {
    ||| app.commit_popup.visible
    ||| app.cherry_pick_popup.visible
    ||| app.error_popup.visible
    ||| app.branch_popup.visible
    ||| app.message_popup.visible
    ||| app.log_popup.visible
    ||| app.remote_popup.visible
}

/// Focus transitions are exclusive.  After focusing `a` and then `b` from
/// any state, `b`'s screen holds focus, `a`'s screen does not (when the two
/// name different screens), and every screen other than the two and the one
/// focused at the start kept its state untouched: exactly one screen lost
/// focus per transfer and exactly one gained it.
pub proof fn lemma_focus_exclusive(
    pre: App,
    mid: App,
    post: App,
    a: ComponentType,
    b: ComponentType,
)
    requires
        focus_transition(pre, mid, a),
        focus_transition(mid, post, b),
        target_kind(a) != TargetKind::NoTarget,
        target_kind(b) != TargetKind::NoTarget,
        target_kind(a) != target_kind(b),
    ensures
        screen_focused(post, target_kind(b)),
        !screen_focused(post, target_kind(a)),
        forall|k: TargetKind|
            k != target_kind(a) && k != target_kind(b) && k != target_kind(pre.focused_component)
                ==> screen_eq(pre, post, k),
{
    assert(mid.focused_component == a);
    assert forall|k: TargetKind|
        k != target_kind(a) && k != target_kind(b) && k != target_kind(
            pre.focused_component,
        ) implies screen_eq(pre, post, k) by {
        assert(screen_eq(pre, mid, k));
        assert(screen_eq(mid, post, k));
    }
}

/// While a popup is modal, an input event reaches exactly one screen — the
/// focused popup: every other screen, popup or browsable, keeps its state.
pub proof fn lemma_modal_input_exclusive(pre: App, post: App, ev: KeyEvent, actions: Seq<Action>)
    requires
        input_dispatched(pre, post, ev, actions),
        is_popup_target(target_kind(pre.focused_component)),
    ensures
        forall|k: TargetKind|
            k != target_kind(pre.focused_component) ==> screen_eq(pre, post, k),
        post.focused_component == pre.focused_component,
{
}

/// What routing one key press does: the focused screen alone takes the key
/// and moves by its own step relation; every other screen, and the focus
/// owner itself, stays.
pub open spec fn input_dispatched(pre: App, post: App, ev: KeyEvent, actions: Seq<Action>) -> bool {
    &&& post.focused_component == pre.focused_component
    &&& (forall|k: TargetKind|
        k != target_kind(pre.focused_component) ==> screen_eq(pre, post, k))
    &&& post.repo_path == pre.repo_path
    &&& post.status == pre.status
    &&& match target_kind(pre.focused_component) {
        TargetKind::Branches => branch_component_step(pre.branches, post.branches, ev, actions),
        TargetKind::BranchPopup => branch_popup_step(pre.branch_popup, post.branch_popup, ev, actions),
        TargetKind::CommitPopup => commit_popup_step(pre.commit_popup, post.commit_popup, ev, actions),
        TargetKind::ErrorPopup => error_popup_step(pre.error_popup, post.error_popup, ev, actions),
        TargetKind::Files => file_component_step(pre.files, post.files, ev, actions),
        TargetKind::Log => log_component_step(pre.logs, post.logs, ev, actions),
        TargetKind::RemotePopup => remote_popup_step(pre.remote_popup, post.remote_popup, ev, actions),
        TargetKind::CherryPick => cherry_pick_step(pre.cherry_pick_popup, post.cherry_pick_popup, ev, actions),
        TargetKind::Diff => diff_component_step(pre.diff, post.diff, ev, actions),
        TargetKind::StagedDiff => diff_component_step(pre.diff_staged, post.diff_staged, ev, actions),
        TargetKind::FullLog => log_popup_step(pre.log_popup, post.log_popup, ev, actions),
        TargetKind::Message => message_popup_step(pre.message_popup, post.message_popup, ev, actions),
        TargetKind::NoTarget => post == pre && actions.len() == 0,
    }
}

impl App {
    /// A fresh engine over the repository at `repo_path`, with no focus
    /// owner yet.  The diff screens start from the first rendered diff.
    pub fn new(repo_path: String, initial_diff: Vec<DiffLine>, initial_staged: Vec<DiffLine>) -> (app:
        Self)
        ensures
            app.focused_component == ComponentType::NoFocus,
            !spec_popup_visible(app),
            app.repo_path == repo_path,
            app.diff.diff_type == DiffComponentType::Diff,
            app.diff_staged.diff_type == DiffComponentType::Staged,
    {
        Self {
            branches: BranchComponent::new(),
            branch_popup: BranchPopup::new(),
            cherry_pick_popup: CherryPickPopup::new(),
            commit_popup: CommitPopup::new(),
            diff: DiffComponent::new(DiffComponentType::Diff, initial_diff),
            diff_staged: DiffComponent::new(DiffComponentType::Staged, initial_staged),
            error_popup: ErrorComponent::new(),
            files: FileComponent::new(),
            focused_component: ComponentType::NoFocus,
            logs: LogComponent::new(),
            log_popup: LogPopup::new(),
            message_popup: MessagePopup::new(),
            remote_popup: RemotePopupComponent::new(),
            status: StatusComponent::new(repo_path.clone()),
            repo_path,
        }
    }

    /// Whether a popup overlay is shown.
    pub fn is_popup_visible(&self) -> (r: bool)
        ensures
            r == spec_popup_visible(*self),
    {
        self.commit_popup.visible() || self.cherry_pick_popup.visible()
            || self.error_popup.visible() || self.branch_popup.visible()
            || self.message_popup.visible() || self.log_popup.visible()
            || self.remote_popup.visible()
    }

    /// Tell one screen that it gained or lost focus, injecting the
    /// target's payload first, and record the target as the focus owner.
    fn _focus(&mut self, component: ComponentType, focus: bool)
        ensures
            focus_half(*old(self), *final(self), component, focus),
    {
        match &component {
            ComponentType::LogComponent => self.logs.focus(focus),
            ComponentType::ErrorComponent => self.error_popup.focus(focus),
            ComponentType::BranchComponent => self.branches.focus(focus),
            ComponentType::FilesComponent => self.files.focus(focus),
            ComponentType::CommitComponent => self.commit_popup.focus(focus),
            ComponentType::BranchPopupComponent => self.branch_popup.focus(focus),
            ComponentType::RemotePopupComponent => self.remote_popup.focus(focus),
            ComponentType::DiffComponent(diff_type) => match diff_type {
                DiffComponentType::Diff => self.diff.focus(focus),
                DiffComponentType::Staged => self.diff_staged.focus(focus),
            },
            ComponentType::CherryPickPopup(logs) => {
                let copy = clone_commits(logs);
                self.cherry_pick_popup.set_logs(copy);
                self.cherry_pick_popup.focus(focus);
            },
            ComponentType::MessageComponent(message) => {
                self.message_popup.set_message(message.as_str());
                self.message_popup.focus(focus);
            },
            ComponentType::FullLogComponent(commit) => {
                let copy = commit.clone();
                self.log_popup.set_commit(copy);
                self.log_popup.focus(focus);
            },
            ComponentType::NoFocus => {},
        }
        self.focused_component = component;
    }

    /// Transfer focus to `target`: the owner so far loses focus, then the
    /// target receives its payload and gains focus, in that order.  The
    /// sequence also runs when the target already owns focus.
    pub fn focus(&mut self, component: ComponentType)
        ensures
            focus_transition(*old(self), *final(self), component),
    {
        let ghost pre = *self;
        let mut current = ComponentType::NoFocus;
        core::mem::swap(&mut current, &mut self.focused_component);
        let ghost swapped = *self;
        self._focus(current, false);
        let ghost mid = *self;
        self._focus(component, true);
        proof {
            let tk = target_kind(component);
            let ck = target_kind(pre.focused_component);
            assert forall|k: TargetKind| k != tk && k != ck implies screen_eq(
                pre,
                *self,
                k,
            ) by {
                assert(screen_eq(swapped, mid, k));
                assert(screen_eq(pre, mid, k));
                assert(screen_eq(mid, *self, k));
            }
            if tk != ck {
                assert(screen_eq(swapped, mid, tk));
                assert(screen_eq(pre, mid, tk));
                assert(screen_eq(mid, *self, ck));
            }
        }
    }

    /// Route one key press to the focused screen alone, which moves by its
    /// own step relation.
    pub fn handle_input(&mut self, ev: KeyEvent) -> (r: Result<Vec<Action>, Error>)
        ensures
            r matches Ok(a) && input_dispatched(*old(self), *final(self), ev, a@),
    {
        let actions = match &self.focused_component {
            ComponentType::LogComponent => self.logs.handle_event(ev)?,
            ComponentType::ErrorComponent => self.error_popup.handle_event(ev)?,
            ComponentType::BranchComponent => self.branches.handle_event(ev)?,
            ComponentType::FilesComponent => self.files.handle_event(ev)?,
            ComponentType::CommitComponent => self.commit_popup.handle_event(ev)?,
            ComponentType::BranchPopupComponent => self.branch_popup.handle_event(ev)?,
            ComponentType::RemotePopupComponent => self.remote_popup.handle_event(ev)?,
            ComponentType::CherryPickPopup(_) => self.cherry_pick_popup.handle_event(ev)?,
            ComponentType::MessageComponent(_) => self.message_popup.handle_event(ev)?,
            ComponentType::FullLogComponent(_) => self.log_popup.handle_event(ev)?,
            ComponentType::DiffComponent(diff_type) => match diff_type {
                DiffComponentType::Diff => self.diff.handle_event(ev)?,
                DiffComponentType::Staged => self.diff_staged.handle_event(ev)?,
            },
            ComponentType::NoFocus => Vec::new(),
        };
        Ok(actions)
    }

    /// Route one input-thread message.  With nothing modal, the reserved
    /// keys come first: number keys jump to a top-level screen and escape
    /// asks to exit.  While a popup is modal no reserved key applies: the
    /// event goes exclusively to the focused screen.  Ticks do nothing.
    pub fn handle_input_event(&mut self, ev: Event<KeyEvent>) -> (r: Result<Vec<Action>, Error>)
        ensures
            r is Ok,
            ev is Tick ==> *final(self) == *old(self) && (r matches Ok(a) && a@.len() == 0),
            ({
                let digit_target = |c: char|
                    match c {
                        '1' => Some(ComponentType::FilesComponent),
                        '2' => Some(ComponentType::BranchComponent),
                        '3' => Some(ComponentType::LogComponent),
                        '4' => Some(ComponentType::DiffComponent(DiffComponentType::Diff)),
                        '5' => Some(ComponentType::DiffComponent(DiffComponentType::Staged)),
                        _ => None::<ComponentType>,
                    };
                ev matches Event::Input(input) ==> {
                    &&& (input.code matches KeyCode::Char(c) && digit_target(c) is Some)
                        && !spec_popup_visible(*old(self)) ==> focus_transition(
                        *old(self),
                        *final(self),
                        digit_target(input.code->Char_0).unwrap(),
                    ) && (r matches Ok(a) && a@.len() == 0)
                    &&& input.code == KeyCode::Esc && !spec_popup_visible(*old(self)) ==> *final(self) == *old(self) && (r matches Ok(a) && a@ =~= seq![
                        Action::Emit(ProgramEvent::Exit),
                    ])
                    &&& spec_popup_visible(*old(self)) ==> (r matches Ok(a) && input_dispatched(
                        *old(self),
                        *final(self),
                        input,
                        a@,
                    ))
                    &&& !(input.code matches KeyCode::Char(c2) && digit_target(c2) is Some) && !(
                    input.code == KeyCode::Esc) ==> (r matches Ok(a) && input_dispatched(
                        *old(self),
                        *final(self),
                        input,
                        a@,
                    ))
                }
            }),
    {
        match ev {
            Event::Input(input) => {
                let mut jump: Option<ComponentType> = None;
                if !self.is_popup_visible() {
                    match input.code {
                        KeyCode::Char(c) => {
                            if c == '1' {
                                jump = Some(ComponentType::FilesComponent);
                            } else if c == '2' {
                                jump = Some(ComponentType::BranchComponent);
                            } else if c == '3' {
                                jump = Some(ComponentType::LogComponent);
                            } else if c == '4' {
                                jump = Some(ComponentType::DiffComponent(DiffComponentType::Diff));
                            } else if c == '5' {
                                jump = Some(
                                    ComponentType::DiffComponent(DiffComponentType::Staged),
                                );
                            }
                        },
                        _ => {},
                    }
                }
                match jump {
                    Some(target) => {
                        self.focus(target);
                        Ok(Vec::new())
                    },
                    None => {
                        if matches!(input.code, KeyCode::Esc) && !self.is_popup_visible() {
                            let mut actions: Vec<Action> = Vec::new();
                            actions.push(Action::Emit(ProgramEvent::Exit));
                            Ok(actions)
                        } else {
                            self.handle_input(input)
                        }
                    },
                }
            },
            Event::Tick => Ok(Vec::new()),
        }
    }

    /// Digest a background notification: successes set the transient
    /// message, stale-list notices ask the loop for an immediate refresh.
    pub fn handle_git_event(&mut self, ev: GitEvent) -> (r: Option<RefreshKind>)
        ensures
            ev is PushSuccess ==> final(self).message_popup.message@ == "Push Successfull!"@
                && final(self).message_popup.visible == old(self).message_popup.visible && r
                is None,
            ev is FetchSuccess ==> final(self).message_popup.message@ == "Fetch Successfull!"@
                && final(self).message_popup.visible == old(self).message_popup.visible && r
                is None,
            ev is RefreshCommitLog ==> *final(self) == *old(self) && r == Some(
                RefreshKind::CommitLog,
            ),
            ev is RefreshBranchList ==> *final(self) == *old(self) && r == Some(
                RefreshKind::BranchList,
            ),
            forall|k: TargetKind|
                k != TargetKind::Message ==> screen_eq(*old(self), *final(self), k),
            final(self).focused_component == old(self).focused_component,
    {
        match ev {
            GitEvent::PushSuccess => {
                self.message_popup.set_message("Push Successfull!");
                None
            },
            GitEvent::FetchSuccess => {
                self.message_popup.set_message("Fetch Successfull!");
                None
            },
            GitEvent::RefreshCommitLog => Some(RefreshKind::CommitLog),
            GitEvent::RefreshBranchList => Some(RefreshKind::BranchList),
        }
    }

    /// Show a failure: its user-facing message goes to the error popup,
    /// which then takes focus.
    pub fn display_error(&mut self, error: Error)
        ensures
            final(self).focused_component == ComponentType::ErrorComponent,
            final(self).error_popup.visible,
            final(self).error_popup.message@ == error.spec_message(),
            forall|k: TargetKind|
                k != TargetKind::ErrorPopup && k != target_kind(old(self).focused_component)
                    ==> screen_eq(*old(self), *final(self), k),
            final(self).repo_path == old(self).repo_path,
            final(self).status == old(self).status,
    {
        let ghost pre = *self;
        match error {
            Error::Git(err) => {
                self.error_popup.set_git_error(err);
            },
            Error::Unknown(message) => {
                self.error_popup.set_message(message);
            },
            Error::Io(kind) => {
                self.error_popup.set_message(kind);
            },
        }
        let ghost mid = *self;
        self.focus(ComponentType::ErrorComponent);
        proof {
            assert forall|k: TargetKind|
                k != TargetKind::ErrorPopup && k != target_kind(
                    pre.focused_component,
                ) implies screen_eq(pre, *self, k) by {
                assert(screen_eq(pre, mid, k));
                assert(screen_eq(mid, *self, k));
            }
        }
    }

    /// The per-tick update: every browsable screen adopts the snapshot the
    /// backend read; popups are left alone.
    pub fn update(&mut self, snapshot: RepoSnapshot)
        ensures
            final(self).focused_component == old(self).focused_component,
            final(self).repo_path == old(self).repo_path,
            forall|k: TargetKind|
                is_popup_target(k) ==> screen_eq(*old(self), *final(self), k),
            final(self).status.status == snapshot.stats,
            crate::components::diff::diff_updated(old(self).diff, final(self).diff, snapshot.diff),
            crate::components::diff::diff_updated(
                old(self).diff_staged,
                final(self).diff_staged,
                snapshot.staged_diff,
            ),
            crate::components::log::log_updated(old(self).logs, final(self).logs, snapshot.commits),
            crate::components::branches::sorted_by_age(final(self).branches.branches@),
            final(self).branches.branches@.to_multiset()
                == crate::components::branches::tab_filter(
                snapshot.branches@,
                old(self).branches.focused_tab,
            ).to_multiset(),
            snapshot.files@.len() > 0 ==> final(self).files.files == snapshot.files,
            snapshot.files@.len() == 0 ==> final(self).files.files@.len() == 1,
    {
        let RepoSnapshot { branches, commits, diff, files, staged_diff, stats } = snapshot;
        self.branches.update(branches);
        self.diff.update(diff);
        self.diff_staged.update(staged_diff);
        self.logs.update(commits);
        self.status.update(stats);
        self.files.update(files);
    }

    /// Digest one engine event, as the event loop's select step does.
    pub fn process_event(&mut self, event: ProgramEvent) -> (r: EventOutcome)
        ensures
            event is ClearTerminal ==> *final(self) == *old(self) && r
                == EventOutcome::ClearTerminal,
            event is Exit ==> *final(self) == *old(self) && r == EventOutcome::Exit,
            event matches ProgramEvent::Error(e) ==> final(self).focused_component
                == ComponentType::ErrorComponent && final(self).error_popup.visible && r
                == EventOutcome::Continue,
            event matches ProgramEvent::Focus(c) ==> focus_transition(
                *old(self),
                *final(self),
                c,
            ) && r == EventOutcome::Continue,
            event matches ProgramEvent::Git(g) ==> {
                &&& g is RefreshCommitLog ==> r == EventOutcome::Refresh(RefreshKind::CommitLog)
                &&& g is RefreshBranchList ==> r == EventOutcome::Refresh(RefreshKind::BranchList)
                &&& (g is PushSuccess || g is FetchSuccess) ==> r == EventOutcome::Continue
            },
    {
        match event {
            ProgramEvent::ClearTerminal => EventOutcome::ClearTerminal,
            ProgramEvent::Exit => EventOutcome::Exit,
            ProgramEvent::Error(error) => {
                self.display_error(error);
                EventOutcome::Continue
            },
            ProgramEvent::Focus(component) => {
                self.focus(component);
                EventOutcome::Continue
            },
            ProgramEvent::Git(git_event) => {
                match self.handle_git_event(git_event) {
                    Some(kind) => EventOutcome::Refresh(kind),
                    None => EventOutcome::Continue,
                }
            },
        }
    }
}

} // verus!
