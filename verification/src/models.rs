use vstd::prelude::*;

verus! {

/// One workflow run of a repository. Timestamps are Unix seconds; the
/// caller converts from whatever clock or API type it uses.
#[derive(Debug, Clone, PartialEq, Eq)]
pub struct WorkflowSummary {
    pub id: u64,
    pub name: String,
    pub status: String,
    pub conclusion: Option<String>,
    pub created_at: i64,
    pub updated_at: i64,
    pub html_url: String,
}

/// A repository together with what is known of its workflows.
#[derive(Debug, Clone, PartialEq, Eq)]
pub struct RepoWithActions {
    pub repo_name: String,
    pub has_actions: bool,
    pub last_run: Option<WorkflowSummary>,
    /// Unix seconds of the last time the workflow state was checked.
    pub last_check: i64,
}

/// The authenticated user, as the userinfo call reports it.
#[derive(Debug, Clone, PartialEq, Eq)]
pub struct GitHubUser {
    pub login: String,
    pub id: u64,
    pub name: Option<String>,
    pub email: Option<String>,
    pub avatar_url: String,
}

} // verus!
