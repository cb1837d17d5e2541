use gitdash::app::ProgramEvent;
use gitdash::components::ComponentType;
use gitdash::error::Error;
use gitdash::git::ops::{
    choose_credential, fetch_events, merge_decision, normal_merge, progress_percentage,
    push_route, CredentialDecision, MergeAnalysis, MergeDecision, MonitorEvent, PushMonitor,
    PushRoute,
};

#[test]
fn push_announces_itself() {
    let events = PushMonitor::start_events();
    assert_eq!(events.len(), 1);
    match &events[0] {
        ProgramEvent::Focus(ComponentType::MessageComponent(m)) => assert_eq!(m, "Pushing"),
        _ => panic!("expected the transient pushing overlay"),
    }
}

#[test]
fn four_failed_credential_attempts_abandon_the_push() {
    let mut monitor = PushMonitor::new();
    assert!(monitor.step(MonitorEvent::CredentialAttempt).is_none());
    assert!(monitor.step(MonitorEvent::CredentialAttempt).is_none());
    assert!(monitor.step(MonitorEvent::CredentialAttempt).is_none());
    let terminal = monitor.step(MonitorEvent::CredentialAttempt);
    match terminal {
        Some(ProgramEvent::Error(Error::Unknown(m))) => assert_eq!(m, "Bad credentials"),
        _ => panic!("expected the credential failure"),
    }
    // No further progress events are emitted afterwards.
    assert!(monitor.step(MonitorEvent::Progress(50)).is_none());
    assert!(monitor.step(MonitorEvent::Progress(100)).is_none());
    assert!(monitor.step(MonitorEvent::CredentialAttempt).is_none());
}

#[test]
fn progress_run_emits_exactly_one_terminal_success() {
    let mut monitor = PushMonitor::new();
    let mut emitted = Vec::new();
    for p in [0u64, 37, 100] {
        if let Some(ev) = monitor.step(MonitorEvent::Progress(p)) {
            emitted.push(ev);
        }
    }
    assert_eq!(emitted.len(), 1);
    assert!(matches!(
        emitted[0],
        ProgramEvent::Focus(ComponentType::FilesComponent)
    ));
    // Nothing comes after the terminal event.
    assert!(monitor.step(MonitorEvent::Progress(100)).is_none());
}

#[test]
fn backend_error_is_terminal() {
    let mut monitor = PushMonitor::new();
    let terminal = monitor.step(MonitorEvent::BackendError(Error::Unknown(
        "remote hung up".to_string(),
    )));
    match terminal {
        Some(ProgramEvent::Error(Error::Unknown(m))) => assert_eq!(m, "remote hung up"),
        _ => panic!("expected the backend failure"),
    }
    assert!(monitor.step(MonitorEvent::Progress(100)).is_none());
}

#[test]
fn progress_percentage_handles_all_totals() {
    assert_eq!(progress_percentage(3, 0), 100);
    assert_eq!(progress_percentage(0, 10), 0);
    assert_eq!(progress_percentage(5, 10), 0);
    assert_eq!(progress_percentage(10, 10), 100);
    assert_eq!(progress_percentage(25, 10), 200);
}

#[test]
fn credentials_follow_what_the_backend_allows() {
    match choose_credential(true, false, Some("alice".to_string())) {
        CredentialDecision::SshFromAgent(u) => assert_eq!(u, "alice"),
        _ => panic!("expected an agent key"),
    }
    assert!(matches!(
        choose_credential(true, true, None),
        CredentialDecision::MissingUsername
    ));
    assert!(matches!(
        choose_credential(false, true, Some("alice".to_string())),
        CredentialDecision::UnsupportedPlaintext
    ));
    assert!(matches!(
        choose_credential(false, false, None),
        CredentialDecision::DefaultCredential
    ));
}

#[test]
fn push_goes_to_the_remote_or_to_the_setup_popup() {
    match push_route(Some("origin".to_string())) {
        PushRoute::Start(name) => assert_eq!(name, "origin"),
        _ => panic!("expected the push to start"),
    }
    assert!(matches!(push_route(None), PushRoute::PromptRemoteSetup));
}

#[test]
fn fetch_outcome_becomes_events() {
    let ok = fetch_events(Ok(()));
    assert_eq!(ok.len(), 2);
    assert!(matches!(
        ok[0],
        ProgramEvent::Git(gitdash::app::GitEvent::FetchSuccess)
    ));
    assert!(matches!(
        ok[1],
        ProgramEvent::Focus(ComponentType::BranchComponent)
    ));

    let failed = fetch_events(Err(Error::Unknown("no remotes".to_string())));
    assert_eq!(failed.len(), 1);
    match &failed[0] {
        ProgramEvent::Error(Error::Unknown(m)) => assert_eq!(m, "no remotes"),
        _ => panic!("expected the failure"),
    }
}

#[test]
fn merge_policy_is_fast_forward_only() {
    let decide = |fast_forward, normal, no_ff, reference_found| {
        merge_decision(MergeAnalysis {
            fast_forward,
            normal,
            no_fast_forward_preference: no_ff,
            reference_found,
        })
    };
    assert_eq!(decide(true, false, false, true), MergeDecision::FastForward);
    assert_eq!(
        decide(true, false, false, false),
        MergeDecision::SetReferenceDirectly
    );
    assert_eq!(
        decide(true, false, true, true),
        MergeDecision::RefusedNoFastForward
    );
    assert_eq!(
        decide(false, true, false, true),
        MergeDecision::NormalUnsupported
    );
    assert_eq!(decide(false, false, false, true), MergeDecision::UpToDate);
}

#[test]
fn normal_merge_always_surfaces_a_failure() {
    match normal_merge() {
        Err(e) => assert_eq!(e.message(), "Normal merge unimplemented"),
        Ok(()) => panic!("a true merge must not silently succeed"),
    }
}
