use oxa::models::RepoWithActions;
use oxa::state::{AppState, AuthState, Panel};

fn repo(name: &str) -> RepoWithActions {
    RepoWithActions {
        repo_name: name.to_string(),
        has_actions: false,
        last_run: None,
        last_check: 0,
    }
}

fn with_repos(count: usize) -> AppState {
    let mut state = AppState::new();
    for i in 0..count {
        state.repos.push(repo(&format!("repo-{}", i)));
    }
    state
}

#[test]
fn initial_state() {
    let state = AppState::new();
    assert!(matches!(state.auth_state, AuthState::Unauthenticated));
    assert!(state.repos.is_empty());
    assert_eq!(state.selected_repo, None);
    assert_eq!(state.current_panel, Panel::Repositories);
    assert!(!state.loading);
    assert!(state.actions.is_empty());
    assert_eq!(state.selected_action, None);
}

#[test]
fn move_selection_without_repos_changes_nothing() {
    let mut state = AppState::new();
    state.move_selection(1);
    assert_eq!(state.selected_repo, None);
}

#[test]
fn move_selection_wraps_and_clamps() {
    let mut state = with_repos(3);
    state.move_selection(1);
    assert_eq!(state.selected_repo, Some(1));
    state.move_selection(1);
    assert_eq!(state.selected_repo, Some(2));
    state.move_selection(1);
    assert_eq!(state.selected_repo, Some(0));

    // Moving up from the first row clamps at zero.
    state.move_selection(-1);
    assert_eq!(state.selected_repo, Some(0));

    // With nothing selected yet, the first move starts from row zero.
    let mut fresh = with_repos(3);
    fresh.move_selection(-1);
    assert_eq!(fresh.selected_repo, Some(0));
}

#[test]
fn switch_panel_cycles_both_ways() {
    let mut state = AppState::new();
    state.switch_panel(1);
    assert_eq!(state.current_panel, Panel::Actions);
    state.switch_panel(1);
    assert_eq!(state.current_panel, Panel::Details);
    state.switch_panel(1);
    assert_eq!(state.current_panel, Panel::Repositories);
    state.switch_panel(-1);
    assert_eq!(state.current_panel, Panel::Details);
    state.switch_panel(-2);
    assert_eq!(state.current_panel, Panel::Repositories);
}
