//! The commit-log screen: the history list, fuzzy search over commit
//! summaries, checkout and revert of the commit under the cursor.

use crate::app::{Action, BackendRequest, ProgramEvent};
use crate::components::{scrolled_down, scrolled_up, ComponentType, ScrollableComponent};
use crate::error::Error;
use crate::git::log::{commit_like, commits_like, Commit};
use crate::keys::{KeyCode, KeyEvent, KeyModifiers};
use vstd::prelude::*;

verus! {

/// The score the fuzzy matcher of the skim algorithm (in its default
/// configuration) gives `pattern` against `choice`, a function of the two
/// strings alone.
pub uninterp spec fn fuzzy_score(choice: Seq<char>, pattern: Seq<char>) -> Option<i64>;

/// Relies on fuzzy_matcher's `SkimMatcherV2::default` and its
/// `FuzzyMatcher::fuzzy_match`: the default-configured matcher's score is a
/// function of the two strings alone.
#[verifier::external_body]
fn fuzzy_match_score(choice: &str, pattern: &str) -> (r: Option<i64>)
    ensures
        r == fuzzy_score(choice@, pattern@),
{
    let matcher = fuzzy_matcher::skim::SkimMatcherV2::default();
    fuzzy_matcher::FuzzyMatcher::fuzzy_match(&matcher, choice, pattern)
}

/// The commits whose summary the query fuzzy-matches, in order.
pub open spec fn matching_commits(commits: Seq<Commit>, query: Seq<char>) -> Seq<Commit> {
    commits.filter(|c: Commit| fuzzy_score(c.message_summary@, query) is Some)
}

/// The commits whose summary the query fuzzy-matches, as fresh copies.
pub fn fuzzy_find(log_list: &Vec<Commit>, query: &str) -> (r: Vec<Commit>)
    ensures
        commits_like(r@, matching_commits(log_list@, query@)),
{
    let ghost orig = log_list@;
    let ghost pred = |c: Commit| fuzzy_score(c.message_summary@, query@) is Some;
    let mut r: Vec<Commit> = Vec::new();
    proof {
        reveal(Seq::filter);
        assert(matching_commits(orig.take(0), query@) =~= Seq::<Commit>::empty());
    }
    let mut i: usize = 0;
    while i < log_list.len()
        invariant
            0 <= i <= orig.len(),
            orig == log_list@,
            commits_like(r@, matching_commits(orig.take(i as int), query@)),
        decreases orig.len() - i,
    {
        let c = &log_list[i];
        let matched = fuzzy_match_score(c.message_summary.as_str(), query).is_some();
        if matched {
            r.push(c.clone());
        }
        proof {
            reveal(Seq::filter);
            let pred = |c: Commit| fuzzy_score(c.message_summary@, query@) is Some;
            assert(orig.take(i + 1).drop_last() =~= orig.take(i as int));
            assert(orig.take(i + 1).last() == orig[i as int]);
            assert(pred(orig[i as int]) == matched);
            assert(commits_like(r@, matching_commits(orig.take(i + 1), query@)));
        }
        i = i + 1;
    }
    proof {
        assert(orig.take(orig.len() as int) =~= orig);
    }
    r
}

pub struct LogComponent {
    pub commits: Vec<Commit>,
    pub filtered_commits: Vec<Commit>,
    pub focused: bool,
    pub input: String,
    pub is_searching: bool,
    pub position: usize,
    pub state: Option<usize>,
}

/// The search query: everything after the leading slash.
pub open spec fn query_of(input: Seq<char>) -> Seq<char> {
    if input.len() >= 1 {
        input.subrange(1, input.len() as int)
    } else {
        Seq::empty()
    }
}

impl LogComponent {
    pub fn new() -> (c: Self)
        ensures
            c.commits@.len() == 0,
            c.filtered_commits@.len() == 0,
            !c.focused,
            c.input@.len() == 0,
            !c.is_searching,
            c.position == 0,
            c.state == Some(0usize),
    {
        Self {
            commits: Vec::new(),
            filtered_commits: Vec::new(),
            focused: false,
            input: String::new(),
            is_searching: false,
            position: 0,
            state: Some(0),
        }
    }

    /// Adopt the history the backend read on this tick.  The visible list
    /// follows it whenever no search narrows the view: outside a search once
    /// the lengths drift apart, and always while the query is still empty.
    pub fn update(&mut self, commits: Vec<Commit>)
        ensures
            log_updated(*old(self), *final(self), commits),
    {
        let refresh = {
            let drifted = commits.len() != self.filtered_commits.len();
            (drifted && !self.is_searching) || self.input.as_str().unicode_len() <= 1
        };
        self.commits = commits;
        if refresh {
            self.filtered_commits = clone_commits(&self.commits);
        }
    }

    /// Route one key press.  While searching, characters narrow the query;
    /// otherwise j/k and control-d/u move, `/` starts a search, `c` checks
    /// the commit under the cursor out, `r` reverts it and enter expands it.
    pub fn handle_event(&mut self, ev: KeyEvent) -> (r: Result<Vec<Action>, Error>)
        ensures
            r matches Ok(a) && log_component_step(*old(self), *final(self), ev, a@),
    {
        if !self.focused {
            return Ok(Vec::new());
        }
        let mut actions: Vec<Action> = Vec::new();
        match ev.code {
            KeyCode::Char(c) => {
                if c == 'j' && matches!(ev.modifiers, KeyModifiers::Control) {
                    self.scroll_down(1);
                } else if c == 'k' && matches!(ev.modifiers, KeyModifiers::Control) {
                    self.scroll_up(1);
                } else if self.is_searching {
                    self.push_char(c);
                } else if c == 'j' {
                    self.scroll_down(1);
                } else if c == 'k' {
                    self.scroll_up(1);
                } else if c == 'd' && matches!(ev.modifiers, KeyModifiers::Control) {
                    self.scroll_down(10);
                } else if c == 'u' && matches!(ev.modifiers, KeyModifiers::Control) {
                    self.scroll_up(10);
                } else if c == '/' {
                    self.is_searching = true;
                    self.input.push('/');
                } else if c == 'c' {
                    if self.position < self.filtered_commits.len() {
                        let id = self.filtered_commits[self.position].id().clone();
                        actions.push(Action::Backend(BackendRequest::CheckoutLocalBranch(id)));
                    }
                } else if c == 'r' {
                    if self.position < self.filtered_commits.len() {
                        let id = self.filtered_commits[self.position].id().clone();
                        actions.push(Action::Backend(BackendRequest::RevertCommit(id)));
                    }
                }
                Ok(actions)
            },
            KeyCode::Backspace => {
                if self.is_searching {
                    self.pop_char();
                }
                Ok(actions)
            },
            KeyCode::Esc => {
                self.input.clear();
                self.reset_state();
                self.is_searching = false;
                Ok(actions)
            },
            KeyCode::Enter => {
                if self.position < self.filtered_commits.len() {
                    let commit = self.filtered_commits[self.position].clone();
                    actions.push(
                        Action::Emit(ProgramEvent::Focus(ComponentType::FullLogComponent(commit))),
                    );
                }
                Ok(actions)
            },
            _ => Ok(actions),
        }
    }

    /// Extend the query by one character and narrow the visible list.
    fn push_char(&mut self, c: char)
        ensures
            final(self).input@ == old(self).input@.push(c),
            commits_like(
                final(self).filtered_commits@,
                matching_commits(old(self).commits@, query_of(final(self).input@)),
            ),
            final(self).position == 0,
            final(self).state == Some(0usize),
            final(self).commits == old(self).commits,
            final(self).focused == old(self).focused,
            final(self).is_searching == old(self).is_searching,
    {
        self.input.push(c);
        let len = self.input.as_str().unicode_len();
        let query = self.input.as_str().substring_char(1, len);
        self.filtered_commits = fuzzy_find(&self.commits, query);
        self.reset_state();
    }

    /// Shorten the query by one character; an emptied input ends the
    /// search, otherwise the visible list is narrowed again.
    fn pop_char(&mut self)
        ensures
            final(self).input@ == (if old(self).input@.len() > 0 {
                old(self).input@.drop_last()
            } else {
                old(self).input@
            }),
            final(self).input@.len() == 0 ==> final(self).is_searching == false && final(self).filtered_commits == old(self).filtered_commits,
            final(self).input@.len() > 0 ==> final(self).is_searching == old(self).is_searching
                && commits_like(
                final(self).filtered_commits@,
                matching_commits(old(self).commits@, query_of(final(self).input@)),
            ),
            final(self).position == 0,
            final(self).state == Some(0usize),
            final(self).commits == old(self).commits,
            final(self).focused == old(self).focused,
    {
        self.input.pop();
        self.reset_state();
        if self.input.as_str().is_empty() {
            self.is_searching = false;
        } else {
            let len = self.input.as_str().unicode_len();
            let query = self.input.as_str().substring_char(1, len);
            self.filtered_commits = fuzzy_find(&self.commits, query);
        }
    }

    pub fn focus(&mut self, focus: bool)
        ensures
            *final(self) == (LogComponent { focused: focus, ..*old(self) }),
    {
        self.focused = focus;
    }
}

/// A fresh copy of each commit in the list.
pub fn clone_commits(v: &Vec<Commit>) -> (r: Vec<Commit>)
    ensures
        commits_like(r@, v@),
{
    let mut r: Vec<Commit> = Vec::new();
    let mut i: usize = 0;
    while i < v.len()
        invariant
            0 <= i <= v@.len(),
            r@.len() == i,
            forall|j: int| 0 <= j < i ==> commit_like(#[trigger] r@[j], v@[j]),
        decreases v@.len() - i,
    {
        r.push(v[i].clone());
        i = i + 1;
    }
    r
}

impl ScrollableComponent for LogComponent {
    open spec fn spec_list_length(&self) -> nat {
        self.filtered_commits@.len()
    }

    open spec fn spec_position(&self) -> nat {
        self.position as nat
    }

    open spec fn spec_with_position(&self, p: nat) -> Self {
        LogComponent { position: p as usize, ..*self }
    }

    open spec fn spec_with_state(&self, p: nat) -> Self {
        LogComponent { state: Some(p as usize), ..*self }
    }

    fn get_list_length(&self) -> usize {
        self.filtered_commits.len()
    }

    fn get_position(&self) -> usize {
        self.position
    }

    fn set_position(&mut self, position: usize) {
        self.position = position;
    }

    fn set_state(&mut self, position: usize) {
        self.state = Some(position);
    }
}

/// The screen adopted the history the backend read; the visible list
/// follows it whenever no search narrows the view.
pub open spec fn log_updated(pre: LogComponent, post: LogComponent, commits: Vec<Commit>) -> bool {
    &&& post.commits == commits
    &&& post.focused == pre.focused
    &&& post.input == pre.input
    &&& post.is_searching == pre.is_searching
    &&& post.position == pre.position
    &&& post.state == pre.state
    &&& ({
        let refresh = (commits@.len() != pre.filtered_commits@.len() && !pre.is_searching)
            || pre.input@.len() <= 1;
        &&& (refresh ==> commits_like(post.filtered_commits@, commits@))
        &&& (!refresh ==> post.filtered_commits == pre.filtered_commits)
    })
}

/// The query grew by one character and the visible list was narrowed to
/// the commits it matches.
pub open spec fn query_extended(pre: LogComponent, post: LogComponent, c: char) -> bool {
    &&& post.input@ == pre.input@.push(c)
    &&& commits_like(post.filtered_commits@, matching_commits(pre.commits@, query_of(post.input@)))
    &&& post.position == 0
    &&& post.state == Some(0usize)
    &&& post.commits == pre.commits
    &&& post.focused == pre.focused
    &&& post.is_searching == pre.is_searching
}

/// The query shrank by one character; an emptied input ends the search,
/// otherwise the visible list was narrowed again.
pub open spec fn query_shrunk(pre: LogComponent, post: LogComponent) -> bool {
    &&& post.input@ == (if pre.input@.len() > 0 {
        pre.input@.drop_last()
    } else {
        pre.input@
    })
    &&& (post.input@.len() == 0 ==> post.is_searching == false && post.filtered_commits
        == pre.filtered_commits)
    &&& (post.input@.len() > 0 ==> post.is_searching == pre.is_searching && commits_like(
        post.filtered_commits@,
        matching_commits(pre.commits@, query_of(post.input@)),
    ))
    &&& post.position == 0
    &&& post.state == Some(0usize)
    &&& post.commits == pre.commits
    &&& post.focused == pre.focused
}

/// How one key press moves the log screen, key by key, following the same
/// order the dispatch tries them in.
pub open spec fn log_component_step(
    pre: LogComponent,
    post: LogComponent,
    ev: KeyEvent,
    actions: Seq<Action>,
) -> bool {
    if !pre.focused {
        post == pre && actions.len() == 0
    } else {
        match ev.code {
            KeyCode::Char(c) => {
                if c == 'j' && ev.modifiers == KeyModifiers::Control {
                    scrolled_down(pre, post, 1) && actions.len() == 0
                } else if c == 'k' && ev.modifiers == KeyModifiers::Control {
                    scrolled_up(pre, post, 1) && actions.len() == 0
                } else if pre.is_searching {
                    query_extended(pre, post, c) && actions.len() == 0
                } else if c == 'j' {
                    scrolled_down(pre, post, 1) && actions.len() == 0
                } else if c == 'k' {
                    scrolled_up(pre, post, 1) && actions.len() == 0
                } else if c == 'd' && ev.modifiers == KeyModifiers::Control {
                    scrolled_down(pre, post, 10) && actions.len() == 0
                } else if c == 'u' && ev.modifiers == KeyModifiers::Control {
                    scrolled_up(pre, post, 10) && actions.len() == 0
                } else if c == '/' {
                    &&& post == (LogComponent { is_searching: true, input: post.input, ..pre })
                    &&& post.input@ == pre.input@.push('/')
                    &&& actions.len() == 0
                } else if c == 'c' {
                    &&& post == pre
                    &&& if pre.position < pre.filtered_commits@.len() {
                        actions =~= seq![
                            Action::Backend(
                                BackendRequest::CheckoutLocalBranch(
                                    pre.filtered_commits@[pre.position as int].id,
                                ),
                            ),
                        ]
                    } else {
                        actions.len() == 0
                    }
                } else if c == 'r' {
                    &&& post == pre
                    &&& if pre.position < pre.filtered_commits@.len() {
                        actions =~= seq![
                            Action::Backend(
                                BackendRequest::RevertCommit(
                                    pre.filtered_commits@[pre.position as int].id,
                                ),
                            ),
                        ]
                    } else {
                        actions.len() == 0
                    }
                } else {
                    post == pre && actions.len() == 0
                }
            },
            KeyCode::Backspace => {
                &&& actions.len() == 0
                &&& if pre.is_searching {
                    query_shrunk(pre, post)
                } else {
                    post == pre
                }
            },
            KeyCode::Esc => {
                &&& actions.len() == 0
                &&& post.input@.len() == 0
                &&& post.is_searching == false
                &&& post.position == 0
                &&& post.state == Some(0usize)
                &&& post.commits == pre.commits
                &&& post.filtered_commits == pre.filtered_commits
                &&& post.focused == pre.focused
            },
            KeyCode::Enter => {
                &&& post == pre
                &&& if pre.position < pre.filtered_commits@.len() {
                    actions.len() == 1 && (actions[0] matches Action::Emit(
                        ProgramEvent::Focus(ComponentType::FullLogComponent(c)),
                    ) && commit_like(c, pre.filtered_commits@[pre.position as int]))
                } else {
                    actions.len() == 0
                }
            },
            _ => post == pre && actions.len() == 0,
        }
    }
}

} // verus!
