use gitdash::app::{Action, BackendRequest, GitEvent, ProgramEvent};
use gitdash::components::branch_popup::BranchPopup;
use gitdash::components::cherry_pick_popup::CherryPickPopup;
use gitdash::components::commit_popup::CommitPopup;
use gitdash::components::message_popup::MessagePopup;
use gitdash::components::push_popup::PushPopup;
use gitdash::components::remote_popup::RemotePopupComponent;
use gitdash::components::ComponentType;
use gitdash::git::log::Commit;
use gitdash::git::time::CommitDate;
use gitdash::keys::{KeyCode, KeyEvent, KeyModifiers};

fn key(code: KeyCode) -> KeyEvent {
    KeyEvent::new(code, KeyModifiers::Empty)
}

fn ctrl(c: char) -> KeyEvent {
    KeyEvent::new(KeyCode::Char(c), KeyModifiers::Control)
}

fn type_text(popup: &mut CommitPopup, text: &str) {
    for c in text.chars() {
        popup.handle_event(key(KeyCode::Char(c))).unwrap();
    }
}

#[test]
fn message_popup_dismisses_on_control_q() {
    let mut popup = MessagePopup::new();
    popup.set_message("Fetching...");
    popup.focus(true);
    assert!(popup.visible());
    popup.handle_event(key(KeyCode::Char('q'))).unwrap();
    assert!(popup.visible());
    popup.handle_event(ctrl('q')).unwrap();
    assert!(!popup.visible());
    assert_eq!(popup.message, "Fetching...");
}

#[test]
fn push_popup_resets_its_message_on_focus() {
    let mut popup = PushPopup::new();
    popup.set_message("almost there");
    popup.focus(true);
    assert!(popup.visible());
    assert_eq!(popup.message, "Pushing...");
}

#[test]
fn commit_popup_edits_and_commits() {
    let mut popup = CommitPopup::new();
    popup.focus(true);
    type_text(&mut popup, "fix the thing");
    assert_eq!(popup.input, "fix the thing");

    popup.handle_event(key(KeyCode::Backspace)).unwrap();
    assert_eq!(popup.input, "fix the thin");

    let actions = popup.handle_event(key(KeyCode::Enter)).unwrap();
    assert!(!popup.visible());
    assert!(popup.input.is_empty());
    assert_eq!(actions.len(), 3);
    match &actions[0] {
        Action::Backend(BackendRequest::Commit(m)) => assert_eq!(m, "fix the thin"),
        _ => panic!("expected the commit request first"),
    }
    assert!(matches!(
        actions[1],
        Action::Emit(ProgramEvent::Focus(ComponentType::FilesComponent))
    ));
    assert!(matches!(
        actions[2],
        Action::Emit(ProgramEvent::Git(GitEvent::RefreshCommitLog))
    ));
}

#[test]
fn commit_popup_enter_on_empty_input_commits_nothing() {
    let mut popup = CommitPopup::new();
    popup.focus(true);
    let actions = popup.handle_event(key(KeyCode::Enter)).unwrap();
    assert_eq!(actions.len(), 2);
    assert!(matches!(
        actions[0],
        Action::Emit(ProgramEvent::Focus(ComponentType::FilesComponent))
    ));
}

#[test]
fn commit_popup_caps_the_message_length() {
    let mut popup = CommitPopup::new();
    popup.focus(true);
    for _ in 0..200 {
        popup.handle_event(key(KeyCode::Char('a'))).unwrap();
    }
    assert_eq!(popup.input.chars().count(), 95);
}

#[test]
fn commit_popup_deletes_the_last_word() {
    let mut popup = CommitPopup::new();
    popup.focus(true);
    type_text(&mut popup, "fix the thing");
    popup.handle_event(ctrl('w')).unwrap();
    assert_eq!(popup.input, "fix the");

    let mut popup = CommitPopup::new();
    popup.focus(true);
    type_text(&mut popup, "oneword");
    popup.handle_event(ctrl('w')).unwrap();
    assert_eq!(popup.input, "");
}

#[test]
fn branch_popup_enter_creates_and_checks_out() {
    let mut popup = BranchPopup::new();
    popup.focus(true);
    for c in "topic".chars() {
        popup.handle_event(key(KeyCode::Char(c))).unwrap();
    }
    let actions = popup.handle_event(key(KeyCode::Enter)).unwrap();
    assert!(!popup.visible());
    assert_eq!(actions.len(), 3);
    assert!(matches!(
        actions[0],
        Action::Emit(ProgramEvent::Focus(ComponentType::BranchComponent))
    ));
    match &actions[1] {
        Action::Backend(BackendRequest::CreateAndCheckoutBranch(n)) => assert_eq!(n, "topic"),
        _ => panic!("expected the branch request"),
    }
    assert!(matches!(
        actions[2],
        Action::Emit(ProgramEvent::Git(GitEvent::RefreshBranchList))
    ));
}

#[test]
fn remote_popup_accepts_a_well_formed_remote() {
    let mut popup = RemotePopupComponent::new();
    popup.focus(true);
    // Confirm the prompt ("yes" is selected first).
    popup.handle_event(key(KeyCode::Enter)).unwrap();
    for c in "origin".chars() {
        popup.handle_event(key(KeyCode::Char(c))).unwrap();
    }
    popup.handle_event(key(KeyCode::Tab)).unwrap();
    for c in "git@example.com:user/repo.git".chars() {
        popup.handle_event(key(KeyCode::Char(c))).unwrap();
    }
    let actions = popup.handle_event(key(KeyCode::Enter)).unwrap();
    assert_eq!(actions.len(), 2);
    match &actions[0] {
        Action::Backend(BackendRequest::AddRemote(name, url)) => {
            assert_eq!(name, "origin");
            assert_eq!(url, "git@example.com:user/repo.git");
        }
        _ => panic!("expected the add-remote request"),
    }
    assert!(!popup.visible());
}

#[test]
fn remote_popup_rejects_a_malformed_url() {
    let mut popup = RemotePopupComponent::new();
    popup.focus(true);
    popup.handle_event(key(KeyCode::Enter)).unwrap();
    for c in "origin".chars() {
        popup.handle_event(key(KeyCode::Char(c))).unwrap();
    }
    popup.handle_event(key(KeyCode::Tab)).unwrap();
    for c in "not a url".chars() {
        popup.handle_event(key(KeyCode::Char(c))).unwrap();
    }
    let actions = popup.handle_event(key(KeyCode::Enter)).unwrap();
    assert!(actions.is_empty());
    assert_eq!(popup.error_message, "Invalid URL");
}

#[test]
fn remote_popup_rejects_a_bad_remote_name() {
    let mut popup = RemotePopupComponent::new();
    popup.focus(true);
    popup.handle_event(key(KeyCode::Enter)).unwrap();
    for c in "bad/name".chars() {
        popup.handle_event(key(KeyCode::Char(c))).unwrap();
    }
    popup.handle_event(key(KeyCode::Tab)).unwrap();
    for c in "git@example.com:user/repo.git".chars() {
        popup.handle_event(key(KeyCode::Char(c))).unwrap();
    }
    let actions = popup.handle_event(key(KeyCode::Enter)).unwrap();
    assert!(actions.is_empty());
    assert_eq!(popup.error_message, "Invalid remote name");
}

fn short_commit(id: &str) -> Commit {
    Commit::from_parts(
        id.to_string(),
        "a".to_string(),
        "a@example.com".to_string(),
        "subject".to_string(),
        Vec::new(),
        CommitDate::new(0, 0),
    )
}

#[test]
fn cherry_pick_selection_toggles_and_picks() {
    let mut popup = CherryPickPopup::new();
    popup.set_logs(vec![short_commit("aaaa"), short_commit("bbbb")]);
    popup.focus(true);

    popup.handle_event(key(KeyCode::Char('s'))).unwrap();
    assert_eq!(popup.selected_commits, vec!["aaaa".to_string()]);
    popup.handle_event(key(KeyCode::Char('s'))).unwrap();
    assert!(popup.selected_commits.is_empty());

    popup.handle_event(key(KeyCode::Char('s'))).unwrap();
    popup.handle_event(key(KeyCode::Char('j'))).unwrap();
    popup.handle_event(key(KeyCode::Char('s'))).unwrap();
    let actions = popup.handle_event(key(KeyCode::Enter)).unwrap();
    assert_eq!(actions.len(), 1);
    match &actions[0] {
        Action::Backend(BackendRequest::CherryPick(ids)) => {
            assert_eq!(ids, &vec!["aaaa".to_string(), "bbbb".to_string()]);
        }
        _ => panic!("expected the cherry-pick request"),
    }
    assert!(popup.selected_commits.is_empty());
}
