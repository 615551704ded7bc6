use vstd::prelude::*;

verus! {

/// Configuration consumed, not owned, by the authentication core: provider
/// endpoints, client identity, scope list, port range, timeout and retry
/// knobs, and the credential-store addressing. Injected so that a test
/// provider can be substituted without touching the flow logic.
#[derive(Debug, Clone)]
pub struct AuthConfig {
    pub client_id: String,
    pub auth_url: String,
    pub token_url: String,
    pub device_auth_url: String,
    pub scopes: Vec<String>,
    pub port_start: u16,
    pub port_range: u16,
    pub server_timeout_secs: u64,
    pub max_retries: u32,
    pub initial_retry_delay_ms: u64,
    pub service_name: String,
    pub token_key: String,
}

/// The GitHub configuration this application ships with.
pub fn default_config() -> (c: AuthConfig)
    ensures
        c.client_id@ == "YOUR_GITHUB_CLIENT_ID"@,
        c.auth_url@ == "https://github.com/login/oauth/authorize"@,
        c.token_url@ == "https://github.com/login/oauth/access_token"@,
        c.device_auth_url@ == "https://github.com/login/device/code"@,
        c.scopes.deep_view() =~= seq!["repo"@, "read:org"@, "workflow"@],
        c.port_start == 8080,
        c.port_range == 100,
        c.server_timeout_secs == 300,
        c.max_retries == 3,
        c.initial_retry_delay_ms == 1000,
        c.service_name@ == "oxa"@,
        c.token_key@ == "github_oauth_token"@,
{
    let mut scopes: Vec<String> = Vec::new();
    scopes.push(String::from_str("repo"));
    scopes.push(String::from_str("read:org"));
    scopes.push(String::from_str("workflow"));
    proof {
        assert(scopes.deep_view() =~= seq!["repo"@, "read:org"@, "workflow"@]);
    }
    AuthConfig {
        client_id: String::from_str("YOUR_GITHUB_CLIENT_ID"),
        auth_url: String::from_str("https://github.com/login/oauth/authorize"),
        token_url: String::from_str("https://github.com/login/oauth/access_token"),
        device_auth_url: String::from_str("https://github.com/login/device/code"),
        scopes,
        port_start: 8080,
        port_range: 100,
        server_timeout_secs: 300,
        max_retries: 3,
        initial_retry_delay_ms: 1000,
        service_name: String::from_str("oxa"),
        token_key: String::from_str("github_oauth_token"),
    }
}

} // verus!
