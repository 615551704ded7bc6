use oxa::callback_server::{CallbackOutcome, CallbackServer};

fn server(state: &str) -> CallbackServer {
    CallbackServer::new(state.to_string(), 600)
}

#[test]
fn valid_callback_grants() {
    let mut s = server("abc");
    let reply = s.on_request("/callback?code=XYZ&state=abc").unwrap();
    assert_eq!(reply.status, 200);
    assert_eq!(
        reply.body,
        "Authentication successful! You can close this window."
    );
    assert_eq!(
        s.into_outcome(),
        Some(CallbackOutcome::Granted {
            code: "XYZ".to_string()
        })
    );
}

#[test]
fn percent_encoded_values_are_decoded() {
    let mut s = server("a b");
    let reply = s.on_request("/callback?code=x%40y&state=a%20b").unwrap();
    assert_eq!(reply.status, 200);
    assert_eq!(
        s.into_outcome(),
        Some(CallbackOutcome::Granted {
            code: "x@y".to_string()
        })
    );
}

#[test]
fn mismatched_state_does_not_poison() {
    let mut s = server("abc");
    let reply = s.on_request("/callback?code=FAKE&state=wrong").unwrap();
    assert_eq!(reply.status, 400);
    assert_eq!(reply.body, "Security error: Invalid state parameter.");
    assert!(!s.is_resolved());

    let reply = s.on_request("/callback?code=XYZ&state=abc").unwrap();
    assert_eq!(reply.status, 200);
    assert_eq!(
        s.into_outcome(),
        Some(CallbackOutcome::Granted {
            code: "XYZ".to_string()
        })
    );
}

#[test]
fn access_denied_resolves_denied_once() {
    let mut s = server("abc");
    let reply = s.on_request("/callback?error=access_denied").unwrap();
    assert_eq!(reply.status, 400);
    assert_eq!(reply.body, "Error: You denied access to the application.");
    assert!(s.is_resolved());

    // The listener has stopped: later requests are not processed.
    assert!(s.on_request("/callback?code=XYZ&state=abc").is_none());
    assert_eq!(
        s.into_outcome(),
        Some(CallbackOutcome::Denied {
            reason: "user declined".to_string()
        })
    );
}

#[test]
fn other_error_is_flow_failed() {
    let mut s = server("abc");
    let reply = s.on_request("/callback?error=server_error").unwrap();
    assert_eq!(reply.status, 400);
    assert_eq!(reply.body, "Error: Authentication failed.");
    assert_eq!(
        s.into_outcome(),
        Some(CallbackOutcome::Denied {
            reason: "flow failed".to_string()
        })
    );
}

#[test]
fn deadline_resolves_timed_out() {
    let mut s = server("abc");
    s.on_deadline();
    assert!(s.is_resolved());
    assert!(s.on_request("/callback?code=XYZ&state=abc").is_none());
    assert_eq!(s.into_outcome(), Some(CallbackOutcome::TimedOut));
}

#[test]
fn noise_requests_are_ignored() {
    let mut s = server("abc");
    assert!(s.on_request("/favicon.ico").is_none());
    assert!(!s.is_resolved());
}

#[test]
fn mismatch_exhaustion_resolves_invalid_state() {
    let mut s = CallbackServer::new("abc".to_string(), 1);
    let reply = s.on_request("/callback?code=FAKE&state=wrong").unwrap();
    assert_eq!(reply.status, 400);
    assert_eq!(s.into_outcome(), Some(CallbackOutcome::InvalidState));
}

#[test]
fn noise_exhaustion_resolves_timed_out() {
    let mut s = CallbackServer::new("abc".to_string(), 1);
    assert!(s.on_request("/favicon.ico").is_none());
    assert_eq!(s.into_outcome(), Some(CallbackOutcome::TimedOut));
}

#[test]
fn end_to_end_scenario() {
    // Allocate a port in [8080, 8180) with the first three taken.
    let occupied = vec![8080, 8081, 8082];
    let port = oxa::ports::find_available_port(8080, 100, &occupied).unwrap();
    assert_eq!(port, 8083);

    // Wait for the callback with the expected state.
    let mut s = server("abc");
    let reply = s.on_request("/?code=XYZ&state=abc").unwrap();
    assert_eq!(reply.status, 200);

    // The server already resolved: a forged follow-up is not processed.
    assert!(s.on_request("/?code=FAKE&state=wrong").is_none());
    assert_eq!(
        s.into_outcome(),
        Some(CallbackOutcome::Granted {
            code: "XYZ".to_string()
        })
    );
}
