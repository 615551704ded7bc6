use vstd::prelude::*;

use crate::models::{RepoWithActions, WorkflowSummary};

verus! {

/// Where the application stands with the identity provider.
#[derive(Debug, Clone, PartialEq, Eq)]
pub enum AuthState {
    Unauthenticated,
    Authenticating,
    Authenticated { username: String },
    Error { message: String },
}

/// Which panel of the interface has focus.
#[derive(Debug, Clone, Copy, PartialEq, Eq, Structural)]
pub enum Panel {
    Repositories,
    Actions,
    Details,
}

/// The position of a panel in the left-to-right cycling order.
pub open spec fn panel_index(p: Panel) -> int {
    match p {
        Panel::Repositories => 0,
        Panel::Actions => 1,
        Panel::Details => 2,
    }
}

/// The panel at a position of the cycling order.
pub open spec fn panel_at(i: int) -> Panel {
    if i == 0 {
        Panel::Repositories
    } else if i == 1 {
        Panel::Actions
    } else {
        Panel::Details
    }
}

/// The repository index selected after moving by `direction`: the current
/// index (or the first row when nothing is selected) shifted, clamped at
/// zero, and wrapped over the row count.
pub open spec fn moved_selection(selected: Option<usize>, direction: int, len: nat) -> int {
    let current = match selected {
        Some(i) => i as int,
        None => 0,
    };
    let shifted = if current + direction < 0 {
        0
    } else {
        current + direction
    };
    shifted % (len as int)
}

/// Everything the interface shows: authentication state, the repository
/// and action lists, the selection in each, and the focused panel.
#[derive(Debug, Clone, PartialEq, Eq)]
pub struct AppState {
    pub auth_state: AuthState,
    pub repos: Vec<RepoWithActions>,
    pub selected_repo: Option<usize>,
    pub current_panel: Panel,
    pub loading: bool,
    pub actions: Vec<WorkflowSummary>,
    pub selected_action: Option<usize>,
}

impl AppState {
    /// The initial state: unauthenticated, nothing loaded, nothing
    /// selected, focus on the repositories panel.
    pub fn new() -> (s: Self)
        ensures
            s.auth_state is Unauthenticated,
            s.repos@.len() == 0,
            s.selected_repo is None,
            s.current_panel is Repositories,
            !s.loading,
            s.actions@.len() == 0,
            s.selected_action is None,
    {
        AppState {
            auth_state: AuthState::Unauthenticated,
            repos: Vec::new(),
            selected_repo: None,
            current_panel: Panel::Repositories,
            loading: false,
            actions: Vec::new(),
            selected_action: None,
        }
    }

    /// Moves the repository selection by `direction`, clamping at the
    /// first row and wrapping over the row count; with no repositories
    /// nothing changes.
    pub fn move_selection(&mut self, direction: i32)
        ensures
            old(self).repos@.len() == 0 ==> *final(self) == *old(self),
            old(self).repos@.len() > 0 ==> *final(self) == (AppState {
                selected_repo: Some(
                    moved_selection(
                        old(self).selected_repo,
                        direction as int,
                        old(self).repos@.len(),
                    ) as usize,
                ),
                ..*old(self)
            }),
    {
        if self.repos.len() > 0 {
            let current: usize = match self.selected_repo {
                Some(i) => i,
                None => 0,
            };
            let shifted: i128 = current as i128 + direction as i128;
            let clamped: u128 = if shifted < 0 {
                0
            } else {
                shifted as u128
            };
            let wrapped: u128 = clamped % (self.repos.len() as u128);
            self.selected_repo = Some(wrapped as usize);
        }
    }

    /// Cycles the focused panel by `direction`, wrapping in both
    /// directions over the three panels.
    pub fn switch_panel(&mut self, direction: i32)
        ensures
            *final(self) == (AppState {
                current_panel: panel_at(
                    (panel_index(old(self).current_panel) + direction) % 3,
                ),
                ..*old(self)
            }),
    {
        let index: u64 = match self.current_panel {
            Panel::Repositories => 0,
            Panel::Actions => 1,
            Panel::Details => 2,
        };
        let shifted: i64 = index as i64 + direction as i64 + 3 * 2147483648;
        let nonneg: u64 = shifted as u64;
        let wrapped: u64 = nonneg % 3;
        proof {
            vstd::arithmetic::div_mod::lemma_mod_multiples_vanish(
                2147483648,
                panel_index(old(self).current_panel) + direction,
                3,
            );
        }
        self.current_panel = if wrapped == 0 {
            Panel::Repositories
        } else if wrapped == 1 {
            Panel::Actions
        } else {
            Panel::Details
        };
    }
}

} // verus!
