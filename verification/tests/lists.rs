use gitdash::app::{Action, BackendRequest, ProgramEvent};
use gitdash::components::branches::BranchComponent;
use gitdash::components::files::FileComponent;
use gitdash::components::log::{fuzzy_find, LogComponent};
use gitdash::components::ComponentType;
use gitdash::git::branch::{Branch, BranchType};
use gitdash::git::log::Commit;
use gitdash::git::status::{FileStatus, StatusLoc, StatusType};
use gitdash::git::time::CommitDate;
use gitdash::keys::{KeyCode, KeyEvent, KeyModifiers};

fn key(code: KeyCode) -> KeyEvent {
    KeyEvent::new(code, KeyModifiers::Empty)
}

fn commit(id: &str, summary: &str) -> Commit {
    Commit::from_parts(
        id.to_string(),
        "author".to_string(),
        "author@example.com".to_string(),
        summary.to_string(),
        Vec::new(),
        CommitDate::new(0, 0),
    )
}

fn branch(name: &str, tab: BranchType, age: u64) -> Branch {
    Branch {
        name: name.to_string(),
        branch_type: tab,
        last_commit: Commit::from_parts(
            "0123456789abcdef0123456789abcdef01234567".to_string(),
            "author".to_string(),
            "author@example.com".to_string(),
            "subject".to_string(),
            Vec::new(),
            CommitDate::new(1000 - age, 1000),
        ),
    }
}

#[test]
fn branch_screen_keeps_its_tab_sorted_by_age() {
    let mut screen = BranchComponent::new();
    screen.update(vec![
        branch("old-local", BranchType::Local, 900),
        branch("remote-only", BranchType::Remote, 10),
        branch("fresh-local", BranchType::Local, 5),
        branch("middle-local", BranchType::Local, 100),
    ]);
    let names: Vec<&str> = screen.branches.iter().map(|b| b.name.as_str()).collect();
    assert_eq!(names, vec!["fresh-local", "middle-local", "old-local"]);
}

#[test]
fn branch_screen_checks_out_by_branch_kind() {
    let mut screen = BranchComponent::new();
    screen.focus(true);
    screen.update(vec![branch("main", BranchType::Local, 1)]);
    let actions = screen.handle_event(key(KeyCode::Char('c'))).unwrap();
    assert_eq!(actions.len(), 1);
    match &actions[0] {
        Action::Backend(BackendRequest::CheckoutLocalBranch(n)) => assert_eq!(n, "main"),
        _ => panic!("expected a local checkout"),
    }

    let mut screen = BranchComponent::new();
    screen.focus(true);
    let actions = screen.handle_event(key(KeyCode::Char('l'))).unwrap();
    assert_eq!(actions.len(), 1);
    screen.update(vec![branch("origin/main", BranchType::Remote, 1)]);
    let actions = screen.handle_event(key(KeyCode::Char('c'))).unwrap();
    match &actions[0] {
        Action::Backend(BackendRequest::CheckoutRemoteBranch(n)) => assert_eq!(n, "origin/main"),
        _ => panic!("expected a remote checkout"),
    }
}

#[test]
fn fuzzy_search_narrows_the_log() {
    let commits = vec![
        commit("1111111111111111111111111111111111111111", "fix the parser"),
        commit("2222222222222222222222222222222222222222", "add a renderer"),
        commit("3333333333333333333333333333333333333333", "fix the renderer"),
    ];
    let matched = fuzzy_find(&commits, "fix");
    let summaries: Vec<&str> = matched
        .iter()
        .map(|c| c.message_summary().as_str())
        .collect();
    assert_eq!(summaries, vec!["fix the parser", "fix the renderer"]);

    assert!(fuzzy_find(&commits, "zzzz").is_empty());
}

#[test]
fn log_search_keys_drive_the_filter() {
    let mut screen = LogComponent::new();
    screen.focus(true);
    screen.update(vec![
        commit("1111111111111111111111111111111111111111", "alpha work"),
        commit("2222222222222222222222222222222222222222", "beta work"),
    ]);
    assert_eq!(screen.filtered_commits.len(), 2);

    screen.handle_event(key(KeyCode::Char('/'))).unwrap();
    for c in "beta".chars() {
        screen.handle_event(key(KeyCode::Char(c))).unwrap();
    }
    assert_eq!(screen.input, "/beta");
    assert_eq!(screen.filtered_commits.len(), 1);
    assert_eq!(screen.filtered_commits[0].message_summary(), "beta work");

    screen.handle_event(key(KeyCode::Esc)).unwrap();
    assert!(!screen.is_searching);
    assert!(screen.input.is_empty());
}

#[test]
fn searching_takes_control_shortcuts_as_query_text() {
    let mut screen = LogComponent::new();
    screen.focus(true);
    screen.update(vec![commit(
        "1111111111111111111111111111111111111111",
        "alpha work",
    )]);
    screen.handle_event(key(KeyCode::Char('/'))).unwrap();
    screen
        .handle_event(KeyEvent::new(KeyCode::Char('d'), KeyModifiers::Control))
        .unwrap();
    assert_eq!(screen.input, "/d");
}

#[test]
fn log_enter_expands_the_selected_commit() {
    let mut screen = LogComponent::new();
    screen.focus(true);
    screen.update(vec![commit(
        "1111111111111111111111111111111111111111",
        "alpha work",
    )]);
    let actions = screen.handle_event(key(KeyCode::Enter)).unwrap();
    assert_eq!(actions.len(), 1);
    match &actions[0] {
        Action::Emit(ProgramEvent::Focus(ComponentType::FullLogComponent(c))) => {
            assert_eq!(c.message_summary(), "alpha work");
        }
        _ => panic!("expected the detail popup"),
    }
}

#[test]
fn file_screen_stages_and_commits() {
    let mut screen = FileComponent::new();
    screen.focus(true);
    screen.update(vec![
        FileStatus {
            path: "a.rs".to_string(),
            status_type: StatusType::WtModified,
            status_loc: StatusLoc::WorkingDirectory,
        },
        FileStatus {
            path: "b.rs".to_string(),
            status_type: StatusType::Added,
            status_loc: StatusLoc::Index,
        },
    ]);

    let actions = screen.handle_event(key(KeyCode::Char('s'))).unwrap();
    match &actions[0] {
        Action::Backend(BackendRequest::StageFile(p)) => assert_eq!(p, "a.rs"),
        _ => panic!("expected a stage request"),
    }

    assert!(screen.has_files_staged());
    let actions = screen.handle_event(key(KeyCode::Char('c'))).unwrap();
    assert!(matches!(
        actions[0],
        Action::Emit(ProgramEvent::Focus(ComponentType::CommitComponent))
    ));

    let actions = screen.handle_event(key(KeyCode::Char('p'))).unwrap();
    assert!(matches!(actions[0], Action::Backend(BackendRequest::Push)));
}

#[test]
fn empty_status_shows_the_clean_placeholder() {
    let mut screen = FileComponent::new();
    screen.update(Vec::new());
    assert_eq!(screen.files.len(), 1);
    assert_eq!(screen.files[0].path, "Working tree clean");
    assert_eq!(screen.files[0].status_type, StatusType::Unmodified);
    assert!(!screen.has_files_staged());
}
