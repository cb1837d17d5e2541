//! Decisions of the background network operations: the push monitor with
//! its credential retry budget, credential selection, transfer-progress
//! percentages, and the fast-forward-only merge policy.  The driver runs
//! these against the real backend off the render thread and forwards the
//! resulting events.

use crate::app::{GitEvent, ProgramEvent};
use crate::components::ComponentType;
use crate::error::Error;
use vstd::prelude::*;

verus! {

/// Credential negotiation attempts allowed before a push is abandoned.
pub const RETRY_CEILING: u64 = 4;

/// The message a push abandoned over credentials reports.
pub open spec fn bad_credentials_message() -> Seq<char> {
    "Bad credentials"@
}

/// One observation the driver hands the monitor while a push runs.
pub enum MonitorEvent {
    /// The backend asked for credentials (once per negotiation attempt).
    CredentialAttempt,
    /// The backend reported a transfer percentage.
    Progress(u64),
    /// The backend call returned with an error.
    BackendError(Error),
}

/// The state of one in-flight push: how often credentials were requested,
/// and whether a terminal event was already emitted.
pub struct PushMonitor {
    pub retries: u64,
    pub finished: bool,
}

/// The retry budget spent after one observation: a credential attempt
/// costs one unit while the push is still under way.
pub open spec fn monitor_retries_after(s: PushMonitor, ev: MonitorEvent) -> u64 {
    if s.finished {
        s.retries
    } else {
        match ev {
            MonitorEvent::CredentialAttempt => if s.retries < u64::MAX {
                (s.retries + 1) as u64
            } else {
                s.retries
            },
            _ => s.retries,
        }
    }
}

/// What the monitor can emit; each is terminal for the operation.
pub ghost enum MonitorEmission {
    CredentialFailure,
    Success,
    Failure(Error),
}

/// The program event an emission stands for.
pub open spec fn emission_matches(em: MonitorEmission, e: ProgramEvent) -> bool {
    match em {
        MonitorEmission::CredentialFailure => e matches ProgramEvent::Error(Error::Unknown(m))
            && m@ == bad_credentials_message(),
        MonitorEmission::Success => e == ProgramEvent::Focus(ComponentType::FilesComponent),
        MonitorEmission::Failure(err) => e == ProgramEvent::Error(err),
    }
}

/// What one observation makes the monitor emit: nothing while the push is
/// under way, and exactly one terminal event when it ends.
pub open spec fn monitor_emit(s: PushMonitor, ev: MonitorEvent) -> Option<MonitorEmission> {
    if s.finished {
        None
    } else {
        match ev {
            MonitorEvent::CredentialAttempt => {
                if monitor_retries_after(s, ev) >= RETRY_CEILING {
                    Some(MonitorEmission::CredentialFailure)
                } else {
                    None
                }
            },
            MonitorEvent::Progress(p) => {
                if p >= 100 {
                    Some(MonitorEmission::Success)
                } else {
                    None
                }
            },
            MonitorEvent::BackendError(e) => Some(MonitorEmission::Failure(e)),
        }
    }
}

impl PushMonitor {
    /// A monitor for a push that just started.
    pub fn new() -> (m: Self)
        ensures
            m.retries == 0,
            !m.finished,
    {
        Self { retries: 0, finished: false }
    }

    /// The events announcing the operation: the transient "Pushing"
    /// overlay.
    pub fn start_events() -> (r: Vec<ProgramEvent>)
        ensures
            r@.len() == 1,
            r@[0] matches ProgramEvent::Focus(ComponentType::MessageComponent(m)) && m@
                == "Pushing"@,
    {
        let mut events: Vec<ProgramEvent> = Vec::new();
        events.push(
            ProgramEvent::Focus(ComponentType::MessageComponent("Pushing".to_owned())),
        );
        events
    }

    /// Digest one observation.  A credential attempt spends one unit of the
    /// retry budget; the fourth exhausts it and abandons the push with a
    /// credential failure.  Reaching one hundred percent succeeds.  A
    /// backend error fails.  After the first terminal event the monitor
    /// emits nothing more.
    pub fn step(&mut self, ev: MonitorEvent) -> (r: Option<ProgramEvent>)
        ensures
            final(self).retries == monitor_retries_after(*old(self), ev),
            ({
                let emitted = monitor_emit(*old(self), ev);
                &&& match (r, emitted) {
                    (Some(a), Some(b)) => emission_matches(b, a),
                    (None, None) => true,
                    _ => false,
                }
                &&& final(self).finished == (old(self).finished || emitted is Some)
            }),
            old(self).finished ==> r is None && *final(self) == *old(self),
    {
        if self.finished {
            return None;
        }
        match ev {
            MonitorEvent::CredentialAttempt => {
                self.retries = self.retries.saturating_add(1);
                if self.retries >= RETRY_CEILING {
                    self.finished = true;
                    Some(ProgramEvent::Error(Error::Unknown("Bad credentials".to_owned())))
                } else {
                    None
                }
            },
            MonitorEvent::Progress(p) => {
                if p >= 100 {
                    self.finished = true;
                    Some(ProgramEvent::Focus(ComponentType::FilesComponent))
                } else {
                    None
                }
            },
            MonitorEvent::BackendError(e) => {
                self.finished = true;
                Some(ProgramEvent::Error(e))
            },
        }
    }
}

/// The monitor state after a run of observations.
pub open spec fn monitor_run(s: PushMonitor, evs: Seq<MonitorEvent>) -> PushMonitor
    decreases evs.len(),
{
    if evs.len() == 0 {
        s
    } else {
        let prev = monitor_run(s, evs.drop_last());
        PushMonitor {
            retries: monitor_retries_after(prev, evs.last()),
            finished: prev.finished || monitor_emit(prev, evs.last()) is Some,
        }
    }
}

/// Everything a run of observations makes the monitor emit, in order.
pub open spec fn monitor_output(s: PushMonitor, evs: Seq<MonitorEvent>) -> Seq<MonitorEmission>
    decreases evs.len(),
{
    if evs.len() == 0 {
        Seq::empty()
    } else {
        let prev = monitor_run(s, evs.drop_last());
        match monitor_emit(prev, evs.last()) {
            Some(e) => monitor_output(s, evs.drop_last()).push(e),
            None => monitor_output(s, evs.drop_last()),
        }
    }
}

/// A monitor that has emitted stays finished and emits nothing more.
pub proof fn lemma_finished_monitor_is_silent(s: PushMonitor, evs: Seq<MonitorEvent>)
    requires
        s.finished,
    ensures
        monitor_run(s, evs).finished,
        monitor_output(s, evs).len() == 0,
    decreases evs.len(),
{
    if evs.len() > 0 {
        lemma_finished_monitor_is_silent(s, evs.drop_last());
    }
}

/// One push emits at most one terminal event, whatever the backend does:
/// every event the monitor emits ends the operation, so a run from a fresh
/// monitor emits one event at most, and nothing after it.
pub proof fn lemma_single_terminal_event(s: PushMonitor, evs: Seq<MonitorEvent>)
    ensures
        monitor_output(s, evs).len() <= if s.finished {
            0int
        } else {
            1int
        },
        monitor_output(s, evs).len() > 0 ==> monitor_run(s, evs).finished,
    decreases evs.len(),
{
    if evs.len() > 0 {
        if s.finished {
            lemma_finished_monitor_is_silent(s, evs.drop_last());
        }
        lemma_single_terminal_event(s, evs.drop_last());
        let prev = monitor_run(s, evs.drop_last());
        if monitor_emit(prev, evs.last()) is Some {
            assert(!prev.finished);
            assert(monitor_output(s, evs.drop_last()).len() == 0);
        }
    }
}

/// A run whose observations are four credential attempts (with no terminal
/// event before them) abandons the push with exactly one credential
/// failure, emitted at the fourth attempt, and emits nothing afterwards —
/// in particular no further progress events.
pub proof fn lemma_credential_ceiling(evs: Seq<MonitorEvent>)
    requires
        evs.len() >= 4,
        forall|i: int| 0 <= i < 4 ==> evs[i] == MonitorEvent::CredentialAttempt,
    ensures
        ({
            let out = monitor_output(PushMonitor { retries: 0, finished: false }, evs);
            &&& out.len() == 1
            &&& out[0] == MonitorEmission::CredentialFailure
            &&& monitor_output(PushMonitor { retries: 0, finished: false }, evs.take(3)).len()
                == 0
        }),
{
    let fresh = PushMonitor { retries: 0, finished: false };
    lemma_credential_prefix(evs);
    let after4 = monitor_run(fresh, evs.take(4));
    assert(monitor_output(fresh, evs.take(4)).len() == 1);
    lemma_monitor_run_append(fresh, evs.take(4), evs.skip(4));
    assert(evs.take(4) + evs.skip(4) =~= evs);
    lemma_finished_monitor_is_silent(after4, evs.skip(4));
}

/// After `k <= 4` credential attempts the fresh monitor holds `k` retries;
/// it emits nothing for the first three and the credential failure at the
/// fourth.
proof fn lemma_credential_prefix(evs: Seq<MonitorEvent>)
    requires
        evs.len() >= 4,
        forall|i: int| 0 <= i < 4 ==> evs[i] == MonitorEvent::CredentialAttempt,
    ensures
        ({
            let fresh = PushMonitor { retries: 0, finished: false };
            let out = monitor_output(fresh, evs.take(4));
            &&& monitor_run(fresh, evs.take(3)) == (PushMonitor { retries: 3, finished: false })
            &&& monitor_output(fresh, evs.take(3)).len() == 0
            &&& out.len() == 1
            &&& out[0] == MonitorEmission::CredentialFailure
            &&& monitor_run(fresh, evs.take(4)).finished
        }),
{
    let fresh = PushMonitor { retries: 0, finished: false };
    assert(evs.take(1).drop_last() =~= evs.take(0));
    assert(evs.take(2).drop_last() =~= evs.take(1));
    assert(evs.take(3).drop_last() =~= evs.take(2));
    assert(evs.take(4).drop_last() =~= evs.take(3));
    assert(evs.take(0) =~= Seq::<MonitorEvent>::empty());
    assert(evs.take(1).last() == evs[0]);
    assert(evs.take(2).last() == evs[1]);
    assert(evs.take(3).last() == evs[2]);
    assert(evs.take(4).last() == evs[3]);
    assert(monitor_run(fresh, evs.take(0)) == fresh);
    assert(monitor_run(fresh, evs.take(1)) == (PushMonitor { retries: 1, finished: false }));
    assert(monitor_run(fresh, evs.take(2)) == (PushMonitor { retries: 2, finished: false }));
    assert(monitor_run(fresh, evs.take(3)) == (PushMonitor { retries: 3, finished: false }));
    assert(monitor_output(fresh, evs.take(0)).len() == 0);
    assert(monitor_output(fresh, evs.take(1)).len() == 0);
    assert(monitor_output(fresh, evs.take(2)).len() == 0);
    assert(monitor_output(fresh, evs.take(3)).len() == 0);
    assert(monitor_emit(monitor_run(fresh, evs.take(3)), evs[3]) == Some(
        MonitorEmission::CredentialFailure,
    ));
    assert(monitor_output(fresh, evs.take(4)) == monitor_output(fresh, evs.take(3)).push(
        MonitorEmission::CredentialFailure,
    ));
}

/// Runs compose: observing `a` then `b` is observing `a + b`.
pub proof fn lemma_monitor_run_append(s: PushMonitor, a: Seq<MonitorEvent>, b: Seq<MonitorEvent>)
    ensures
        monitor_run(s, a + b) == monitor_run(monitor_run(s, a), b),
        monitor_output(s, a + b) == monitor_output(s, a) + monitor_output(
            monitor_run(s, a),
            b,
        ),
    decreases b.len(),
{
    if b.len() == 0 {
        assert(a + b =~= a);
        assert(monitor_output(monitor_run(s, a), b) =~= Seq::<MonitorEmission>::empty());
        assert(monitor_output(s, a) + monitor_output(monitor_run(s, a), b) =~= monitor_output(
            s,
            a,
        ));
    } else {
        lemma_monitor_run_append(s, a, b.drop_last());
        assert((a + b).drop_last() =~= a + b.drop_last());
        assert((a + b).last() == b.last());
        assert(monitor_output(s, a) + monitor_output(monitor_run(s, a), b) =~= monitor_output(
            s,
            a + b,
        ));
    }
}

/// How the credential callback answers the backend, given which credential
/// kinds the backend allows and the user name of the URL.
pub enum CredentialDecision {
    /// Ask the SSH agent for a key for this user.
    SshFromAgent(String),
    /// An SSH key is wanted but the URL names no user.
    MissingUsername,
    /// Plain user/password pairs are not supported.
    UnsupportedPlaintext,
    /// Fall back to the backend's default credential.
    DefaultCredential,
}

/// Pick the credential kind the backend is offered: an agent-held SSH key
/// when SSH is allowed and the URL names a user, a missing-user error when
/// it names none, a refusal for plaintext passwords, and the default
/// credential otherwise.
pub fn choose_credential(ssh_allowed: bool, user_pass_allowed: bool, username: Option<String>) -> (r:
    CredentialDecision)
    ensures
        ssh_allowed && username is Some ==> (r matches CredentialDecision::SshFromAgent(u) && u
            == username.unwrap()),
        ssh_allowed && username is None ==> r == CredentialDecision::MissingUsername,
        !ssh_allowed && user_pass_allowed ==> r == CredentialDecision::UnsupportedPlaintext,
        !ssh_allowed && !user_pass_allowed ==> r == CredentialDecision::DefaultCredential,
{
    if ssh_allowed {
        match username {
            Some(u) => CredentialDecision::SshFromAgent(u),
            None => CredentialDecision::MissingUsername,
        }
    } else if user_pass_allowed {
        CredentialDecision::UnsupportedPlaintext
    } else {
        CredentialDecision::DefaultCredential
    }
}

/// The percentage a transfer-progress callback posts: the integer quotient
/// of the counts, scaled by one hundred and clamped to the word; an unknown
/// or zero total counts as complete.
pub fn progress_percentage(current: u64, total: u64) -> (r: u64)
    ensures
        total == 0 ==> r == 100,
        total > 0 ==> r as int == crate::list_window::min_int(
            (current as int / total as int) * 100,
            u64::MAX as int,
        ),
{
    match current.checked_div(total) {
        Some(q) => {
            if q <= u64::MAX / 100 {
                proof {
                    assert((q as int) * 100 <= ((u64::MAX / 100) as int) * 100) by (nonlinear_arith)
                        requires q as int <= (u64::MAX / 100) as int;
                }
                q * 100
            } else {
                proof {
                    assert((q as int) * 100 >= ((u64::MAX / 100 + 1) as int) * 100)
                        by (nonlinear_arith)
                        requires q as int >= (u64::MAX / 100) as int + 1;
                }
                u64::MAX
            }
        },
        None => 100,
    }
}

/// Where a push goes, given the configured remote: straight to the remote,
/// or first to the remote-setup popup when none is configured.
pub enum PushRoute {
    Start(String),
    PromptRemoteSetup,
}

/// Where the push goes once the configured remote is known.
pub fn push_route(remote: Option<String>) -> (r: PushRoute)
    ensures
        remote matches Some(name) ==> r matches PushRoute::Start(n) && n == name,
        remote is None ==> r == PushRoute::PromptRemoteSetup,
{
    match remote {
        Some(name) => PushRoute::Start(name),
        None => PushRoute::PromptRemoteSetup,
    }
}

/// What the driver forwards when a fetch ends: the failure, or the success
/// notice followed by focus on the branch list.
pub fn fetch_events(result: Result<(), Error>) -> (r: Vec<ProgramEvent>)
    ensures
        result matches Err(e) ==> r@ =~= seq![ProgramEvent::Error(e)],
        result is Ok ==> r@ =~= seq![
            ProgramEvent::Git(GitEvent::FetchSuccess),
            ProgramEvent::Focus(ComponentType::BranchComponent),
        ],
{
    let mut events: Vec<ProgramEvent> = Vec::new();
    match result {
        Err(e) => {
            events.push(ProgramEvent::Error(e));
        },
        Ok(()) => {
            events.push(ProgramEvent::Git(GitEvent::FetchSuccess));
            events.push(ProgramEvent::Focus(ComponentType::BranchComponent));
        },
    }
    events
}

/// What the backend's merge analysis allows.
pub struct MergeAnalysis {
    pub fast_forward: bool,
    pub normal: bool,
    pub no_fast_forward_preference: bool,
    pub reference_found: bool,
}

/// The step a pull takes after its fetch.
#[derive(Debug, PartialEq)]
pub enum MergeDecision {
    /// Move the existing branch reference forward.
    FastForward,
    /// No such branch yet: point a fresh reference at the fetched commit.
    SetReferenceDirectly,
    /// The repository forbids fast-forward merges.
    RefusedNoFastForward,
    /// A true merge would be needed; the engine does not do those.
    NormalUnsupported,
    /// Nothing to do.
    UpToDate,
}

/// Decide the pull's merge step: fast-forward when the analysis allows it
/// (against the branch reference when it exists), refusal when the
/// repository forbids fast-forwards, a typed failure when a true merge
/// would be needed, and nothing otherwise.
pub fn merge_decision(analysis: MergeAnalysis) -> (r: MergeDecision)
    ensures
        analysis.fast_forward && analysis.no_fast_forward_preference ==> r
            == MergeDecision::RefusedNoFastForward,
        analysis.fast_forward && !analysis.no_fast_forward_preference
            && analysis.reference_found ==> r == MergeDecision::FastForward,
        analysis.fast_forward && !analysis.no_fast_forward_preference
            && !analysis.reference_found ==> r == MergeDecision::SetReferenceDirectly,
        !analysis.fast_forward && analysis.normal ==> r == MergeDecision::NormalUnsupported,
        !analysis.fast_forward && !analysis.normal ==> r == MergeDecision::UpToDate,
{
    if analysis.fast_forward {
        if analysis.no_fast_forward_preference {
            MergeDecision::RefusedNoFastForward
        } else if analysis.reference_found {
            MergeDecision::FastForward
        } else {
            MergeDecision::SetReferenceDirectly
        }
    } else if analysis.normal {
        MergeDecision::NormalUnsupported
    } else {
        MergeDecision::UpToDate
    }
}

/// A true three-way merge is deliberately unsupported: it always surfaces
/// as a typed failure, never as a silent no-op.
pub fn normal_merge() -> (r: Result<(), Error>)
    ensures
        r matches Err(e) && e.spec_message() == "Normal merge unimplemented"@,
{
    Err(Error::Unknown("Normal merge unimplemented".to_owned()))
}

} // verus!
