use gitdash::app::{Action, App, EventOutcome, GitEvent, ProgramEvent, RefreshKind};
use gitdash::components::ComponentType;
use gitdash::error::Error;
use gitdash::git::diff::DiffComponentType;
use gitdash::git::log::Commit;
use gitdash::git::time::CommitDate;
use gitdash::keys::{KeyCode, KeyEvent, KeyModifiers};
use gitdash::Event;

fn fresh_app() -> App {
    App::new("/tmp/repo".to_string(), Vec::new(), Vec::new())
}

fn key(code: KeyCode) -> KeyEvent {
    KeyEvent::new(code, KeyModifiers::Empty)
}

fn commit(id: &str, summary: &str) -> Commit {
    Commit::from_parts(
        id.to_string(),
        "author".to_string(),
        "author@example.com".to_string(),
        summary.to_string(),
        Vec::new(),
        CommitDate::new(0, 0),
    )
}

#[test]
fn focus_transitions_are_exclusive() {
    let mut app = fresh_app();
    app.focus(ComponentType::FilesComponent);
    assert!(app.files.focused);

    app.focus(ComponentType::BranchComponent);
    // Exactly the two screens changed hands: the old owner lost focus, the
    // new one gained it, and nobody else moved.
    assert!(!app.files.focused);
    assert!(app.branches.focused);
    assert!(!app.logs.focused);
    assert!(!app.diff.focused);
    assert!(!app.diff_staged.focused);
    assert!(!app.commit_popup.visible);
    assert!(!app.error_popup.visible);
    assert!(!app.is_popup_visible());
}

#[test]
fn refocusing_the_same_screen_still_runs_the_sequence() {
    let mut app = fresh_app();
    app.focus(ComponentType::LogComponent);
    app.focus(ComponentType::LogComponent);
    assert!(app.logs.focused);
}

#[test]
fn focus_injects_the_payload_before_gaining() {
    let mut app = fresh_app();
    app.focus(ComponentType::MessageComponent("Pushing".to_string()));
    assert!(app.message_popup.visible);
    assert_eq!(app.message_popup.message, "Pushing");
    assert!(app.is_popup_visible());

    let c = commit("0123456789abcdef0123456789abcdef01234567", "a change");
    app.focus(ComponentType::FullLogComponent(c));
    assert!(app.log_popup.visible);
    assert!(!app.message_popup.visible);
    assert_eq!(app.log_popup.commit.message_summary(), "a change");

    app.focus(ComponentType::CherryPickPopup(vec![
        commit("1111111111111111111111111111111111111111", "one"),
        commit("2222222222222222222222222222222222222222", "two"),
    ]));
    assert!(app.cherry_pick_popup.visible);
    assert_eq!(app.cherry_pick_popup.commits.len(), 2);
}

#[test]
fn modal_input_reaches_only_the_active_popup() {
    let mut app = fresh_app();
    app.focus(ComponentType::FilesComponent);
    app.focus(ComponentType::CommitComponent);
    assert!(app.is_popup_visible());

    let before_files = app.files.position;
    let actions = app.handle_input(key(KeyCode::Char('x'))).unwrap();
    assert!(actions.is_empty());
    // The popup took the character; no background screen observed the key.
    assert_eq!(app.commit_popup.input, "x");
    assert_eq!(app.files.position, before_files);
    assert!(!app.branches.focused);
    assert!(app.logs.input.is_empty());
}

#[test]
fn number_keys_jump_between_screens() {
    let mut app = fresh_app();
    let actions = app
        .handle_input_event(Event::Input(key(KeyCode::Char('2'))))
        .unwrap();
    assert!(actions.is_empty());
    assert!(app.branches.focused);
    assert!(matches!(
        app.focused_component,
        ComponentType::BranchComponent
    ));

    app.handle_input_event(Event::Input(key(KeyCode::Char('5'))))
        .unwrap();
    assert!(app.diff_staged.focused);
    assert!(matches!(
        app.focused_component,
        ComponentType::DiffComponent(DiffComponentType::Staged)
    ));
}

#[test]
fn reserved_keys_do_not_apply_while_modal() {
    let mut app = fresh_app();
    app.focus(ComponentType::FilesComponent);
    app.focus(ComponentType::CommitComponent);
    assert!(app.is_popup_visible());

    // The digit goes to the popup, which types it; focus does not move.
    let actions = app
        .handle_input_event(Event::Input(key(KeyCode::Char('1'))))
        .unwrap();
    assert!(actions.is_empty());
    assert!(app.commit_popup.visible);
    assert_eq!(app.commit_popup.input, "1");
    assert!(matches!(
        app.focused_component,
        ComponentType::CommitComponent
    ));
    assert!(!app.files.focused);
}

#[test]
fn io_failures_are_displayed_too() {
    let mut app = fresh_app();
    app.display_error(Error::Io("permission denied".to_string()));
    assert!(app.error_popup.visible);
    assert_eq!(app.error_popup.message, "permission denied");
}

#[test]
fn escape_without_a_popup_requests_exit() {
    let mut app = fresh_app();
    app.focus(ComponentType::FilesComponent);
    let actions = app
        .handle_input_event(Event::Input(key(KeyCode::Esc)))
        .unwrap();
    assert_eq!(actions.len(), 1);
    assert!(matches!(actions[0], Action::Emit(ProgramEvent::Exit)));
}

#[test]
fn escape_with_a_popup_goes_to_the_popup() {
    let mut app = fresh_app();
    app.focus(ComponentType::ErrorComponent);
    assert!(app.is_popup_visible());
    let actions = app
        .handle_input_event(Event::Input(key(KeyCode::Esc)))
        .unwrap();
    // The popup closed itself and handed focus back instead of exiting.
    assert!(!app.error_popup.visible);
    assert_eq!(actions.len(), 1);
    assert!(matches!(
        actions[0],
        Action::Emit(ProgramEvent::Focus(ComponentType::FilesComponent))
    ));
}

#[test]
fn git_events_set_messages_or_ask_for_refreshes() {
    let mut app = fresh_app();
    assert!(app.handle_git_event(GitEvent::PushSuccess).is_none());
    assert_eq!(app.message_popup.message, "Push Successfull!");
    assert!(app.handle_git_event(GitEvent::FetchSuccess).is_none());
    assert_eq!(app.message_popup.message, "Fetch Successfull!");
    assert!(matches!(
        app.handle_git_event(GitEvent::RefreshCommitLog),
        Some(RefreshKind::CommitLog)
    ));
    assert!(matches!(
        app.handle_git_event(GitEvent::RefreshBranchList),
        Some(RefreshKind::BranchList)
    ));
}

#[test]
fn failures_surface_in_the_error_popup() {
    let mut app = fresh_app();
    app.focus(ComponentType::LogComponent);
    app.display_error(Error::Unknown("it broke".to_string()));
    assert!(app.error_popup.visible);
    assert_eq!(app.error_popup.message, "it broke");
    assert!(matches!(
        app.focused_component,
        ComponentType::ErrorComponent
    ));
    assert!(!app.logs.focused);
}

#[test]
fn the_loop_outcome_follows_the_event() {
    let mut app = fresh_app();
    assert!(matches!(
        app.process_event(ProgramEvent::Exit),
        EventOutcome::Exit
    ));
    assert!(matches!(
        app.process_event(ProgramEvent::ClearTerminal),
        EventOutcome::ClearTerminal
    ));
    assert!(matches!(
        app.process_event(ProgramEvent::Focus(ComponentType::FilesComponent)),
        EventOutcome::Continue
    ));
    assert!(app.files.focused);
    assert!(matches!(
        app.process_event(ProgramEvent::Git(GitEvent::RefreshBranchList)),
        EventOutcome::Refresh(RefreshKind::BranchList)
    ));
    assert!(matches!(
        app.process_event(ProgramEvent::Error(Error::Unknown("x".to_string()))),
        EventOutcome::Continue
    ));
    assert!(app.error_popup.visible);
}
