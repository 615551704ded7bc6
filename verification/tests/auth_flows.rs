use oxa::auth_code::{
    build_authorize_url, build_token_request_body, interpret_exchange_reply,
    new_authorization_request, next_step_for_outcome, redirect_uri, resolve_username,
    AuthorizationRequest, FlowStep, TokenEndpointReply,
};
use oxa::callback_server::CallbackOutcome;
use oxa::config::default_config;
use oxa::device_flow::{
    build_device_auth_body, build_device_token_body, DeviceAuthorization, DevicePoll,
    PollDecision,
};
use oxa::error::{AppError, NetworkErrorKind};
use oxa::text::{decimal_string, join_with_spaces};

#[test]
fn fresh_attempts_use_fresh_secrets() {
    let config = default_config();
    let first = new_authorization_request(config.client_id.clone(), config.scopes.clone(), 8083);
    let second = new_authorization_request(config.client_id.clone(), config.scopes.clone(), 8083);
    assert_ne!(first.csrf_state, second.csrf_state);
    assert_ne!(first.pkce_verifier, second.pkce_verifier);
    assert_ne!(first.pkce_challenge, second.pkce_challenge);

    // The PKCE challenge is a derived digest, never the verifier itself.
    assert_ne!(first.pkce_challenge, first.pkce_verifier);
    assert_eq!(first.csrf_state.len(), 22);
    assert_eq!(first.pkce_verifier.len(), 43);
    assert_eq!(first.pkce_challenge.len(), 43);
}

#[test]
fn redirect_uri_names_the_allocated_port() {
    assert_eq!(redirect_uri(8083), "http://127.0.0.1:8083/callback");
    assert_eq!(redirect_uri(80), "http://127.0.0.1:80/callback");
}

#[test]
fn decimal_rendering() {
    assert_eq!(decimal_string(0), "0");
    assert_eq!(decimal_string(7), "7");
    assert_eq!(decimal_string(65535), "65535");
    assert_eq!(decimal_string(1000), "1000");
}

#[test]
fn scopes_are_space_joined() {
    let scopes = vec!["repo".to_string(), "read:org".to_string(), "workflow".to_string()];
    assert_eq!(join_with_spaces(&scopes), "repo read:org workflow");
    assert_eq!(join_with_spaces(&Vec::new()), "");
    assert_eq!(join_with_spaces(&vec!["one".to_string()]), "one");
}

#[test]
fn authorize_url_carries_every_parameter() {
    let request = AuthorizationRequest {
        client_id: "id1".to_string(),
        scopes: vec!["repo".to_string(), "read:org".to_string()],
        port: 8083,
        csrf_state: "abc".to_string(),
        pkce_verifier: "ver".to_string(),
        pkce_challenge: "ch".to_string(),
    };
    let url = build_authorize_url("https://github.com/login/oauth/authorize", &request);
    assert_eq!(
        url,
        "https://github.com/login/oauth/authorize?client_id=id1\
         &redirect_uri=http%3A%2F%2F127.0.0.1%3A8083%2Fcallback\
         &scope=repo+read%3Aorg&state=abc&code_challenge=ch\
         &code_challenge_method=S256&response_type=code"
    );
}

#[test]
fn token_request_body_is_exact() {
    let body = build_token_request_body("id1", "XYZ", 8083, "ver");
    assert_eq!(
        body,
        "grant_type=authorization_code&code=XYZ\
         &redirect_uri=http%3A%2F%2F127.0.0.1%3A8083%2Fcallback\
         &client_id=id1&code_verifier=ver"
    );
}

#[test]
fn outcome_mapping_is_exhaustive() {
    assert_eq!(
        next_step_for_outcome(CallbackOutcome::Granted {
            code: "XYZ".to_string()
        }),
        FlowStep::Exchange {
            code: "XYZ".to_string()
        }
    );
    assert_eq!(
        next_step_for_outcome(CallbackOutcome::Denied {
            reason: "user declined".to_string()
        }),
        FlowStep::Fail {
            error: AppError::UserCancelled
        }
    );
    assert_eq!(
        next_step_for_outcome(CallbackOutcome::InvalidState),
        FlowStep::Fail {
            error: AppError::AuthFailed("state mismatch".to_string())
        }
    );
    assert_eq!(
        next_step_for_outcome(CallbackOutcome::TimedOut),
        FlowStep::Fail {
            error: AppError::AuthTimeout
        }
    );
}

#[test]
fn exchange_reply_interpretation() {
    assert_eq!(
        interpret_exchange_reply(TokenEndpointReply::Token {
            access_token: "tok".to_string()
        }),
        Ok("tok".to_string())
    );
    assert_eq!(
        interpret_exchange_reply(TokenEndpointReply::AccessDenied),
        Err(AppError::AuthFailed("access denied".to_string()))
    );
    assert_eq!(
        interpret_exchange_reply(TokenEndpointReply::Rejected {
            description: "bad_verification_code".to_string()
        }),
        Err(AppError::AuthFailed("bad_verification_code".to_string()))
    );
    assert_eq!(
        interpret_exchange_reply(TokenEndpointReply::Transport {
            kind: NetworkErrorKind::Timeout
        }),
        Err(AppError::NetworkError(NetworkErrorKind::Timeout))
    );
}

#[test]
fn username_falls_back_to_unknown() {
    assert_eq!(resolve_username(Some("octocat".to_string())), "octocat");
    assert_eq!(resolve_username(None), "unknown");
}

fn device_auth() -> DeviceAuthorization {
    DeviceAuthorization {
        device_code: "dev-secret".to_string(),
        user_code: "ABCD-1234".to_string(),
        verification_uri: "https://github.com/login/device".to_string(),
        expires_in: 900,
        interval: 5,
    }
}

#[test]
fn device_poll_continues_while_pending() {
    let mut poll = DevicePoll::new(&device_auth());
    assert_eq!(
        poll.on_reply(TokenEndpointReply::AuthorizationPending),
        PollDecision::Sleep { delay_secs: 5 }
    );
    assert_eq!(poll.elapsed, 5);
    assert_eq!(
        poll.on_reply(TokenEndpointReply::AuthorizationPending),
        PollDecision::Sleep { delay_secs: 5 }
    );
    assert_eq!(poll.elapsed, 10);
}

#[test]
fn device_poll_slow_down_doubles_interval() {
    let mut poll = DevicePoll::new(&device_auth());
    assert_eq!(
        poll.on_reply(TokenEndpointReply::SlowDown),
        PollDecision::Sleep { delay_secs: 10 }
    );
    assert_eq!(poll.interval, 10);
    assert_eq!(poll.elapsed, 10);
}

#[test]
fn device_poll_times_out_at_expiry() {
    let auth = DeviceAuthorization {
        expires_in: 12,
        ..device_auth()
    };
    let mut poll = DevicePoll::new(&auth);
    assert_eq!(
        poll.on_reply(TokenEndpointReply::AuthorizationPending),
        PollDecision::Sleep { delay_secs: 5 }
    );
    assert_eq!(
        poll.on_reply(TokenEndpointReply::AuthorizationPending),
        PollDecision::Sleep { delay_secs: 5 }
    );
    assert_eq!(
        poll.on_reply(TokenEndpointReply::AuthorizationPending),
        PollDecision::Fail {
            error: AppError::AuthTimeout
        }
    );
}

#[test]
fn device_poll_terminal_replies() {
    let mut poll = DevicePoll::new(&device_auth());
    assert_eq!(
        poll.on_reply(TokenEndpointReply::Token {
            access_token: "tok".to_string()
        }),
        PollDecision::Success {
            access_token: "tok".to_string()
        }
    );
    let mut poll = DevicePoll::new(&device_auth());
    assert_eq!(
        poll.on_reply(TokenEndpointReply::AccessDenied),
        PollDecision::Fail {
            error: AppError::AuthFailed("access denied".to_string())
        }
    );
    let mut poll = DevicePoll::new(&device_auth());
    assert_eq!(
        poll.on_reply(TokenEndpointReply::ExpiredToken),
        PollDecision::Fail {
            error: AppError::AuthTimeout
        }
    );
}

#[test]
fn device_request_bodies_are_exact() {
    assert_eq!(
        build_device_auth_body("id1", "repo read:org"),
        "client_id=id1&scope=repo+read%3Aorg"
    );
    assert_eq!(
        build_device_token_body("id1", "dev-secret"),
        "grant_type=urn%3Aietf%3Aparams%3Aoauth%3Agrant-type%3Adevice_code\
         &device_code=dev-secret&client_id=id1"
    );
}

#[test]
fn default_config_matches_the_provider() {
    let config = default_config();
    assert_eq!(config.auth_url, "https://github.com/login/oauth/authorize");
    assert_eq!(
        config.token_url,
        "https://github.com/login/oauth/access_token"
    );
    assert_eq!(config.device_auth_url, "https://github.com/login/device/code");
    assert_eq!(config.scopes, vec!["repo", "read:org", "workflow"]);
    assert_eq!(config.port_start, 8080);
    assert_eq!(config.port_range, 100);
    assert_eq!(config.server_timeout_secs, 300);
    assert_eq!(config.max_retries, 3);
    assert_eq!(config.initial_retry_delay_ms, 1000);
    assert_eq!(config.service_name, "oxa");
    assert_eq!(config.token_key, "github_oauth_token");
}
