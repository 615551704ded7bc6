use oxa::error::{AppError, NetworkErrorKind};
use oxa::retry::{is_retryable_error, RetryDecision, RetryPolicy, RetrySchedule};

#[test]
fn two_failures_then_success() {
    let policy = RetryPolicy {
        max_attempts: 3,
        initial_delay_ms: 1000,
    };
    let mut schedule = RetrySchedule::new(policy);

    // Attempt 1 fails with a transient error: one delay of the initial
    // length is performed.
    let first = schedule.on_failure(true);
    assert_eq!(first, RetryDecision::RetryAfter { delay_ms: 1000 });

    // Attempt 2 fails: a second delay, double the previous.
    let second = schedule.on_failure(true);
    assert_eq!(second, RetryDecision::RetryAfter { delay_ms: 2000 });

    // Attempt 3 succeeds: the caller returns the success value with
    // exactly those two delays performed. Had it failed, the schedule
    // would have given up.
    let exhausted = schedule.on_failure(true);
    assert_eq!(exhausted, RetryDecision::GiveUp);
}

#[test]
fn semantic_rejection_is_never_retried() {
    let policy = RetryPolicy {
        max_attempts: 3,
        initial_delay_ms: 1000,
    };
    let mut schedule = RetrySchedule::new(policy);
    assert_eq!(schedule.on_failure(false), RetryDecision::GiveUp);
}

#[test]
fn single_attempt_policy_gives_up_immediately() {
    let policy = RetryPolicy {
        max_attempts: 1,
        initial_delay_ms: 50,
    };
    let mut schedule = RetrySchedule::new(policy);
    assert_eq!(schedule.on_failure(true), RetryDecision::GiveUp);
}

#[test]
fn only_network_errors_are_retryable() {
    assert!(is_retryable_error(&AppError::NetworkError(
        NetworkErrorKind::Timeout
    )));
    assert!(is_retryable_error(&AppError::NetworkError(
        NetworkErrorKind::Connect
    )));
    assert!(!is_retryable_error(&AppError::AuthFailed(
        "invalid grant".to_string()
    )));
    assert!(!is_retryable_error(&AppError::UserCancelled));
    assert!(!is_retryable_error(&AppError::AuthTimeout));
    assert!(!is_retryable_error(&AppError::NoAvailablePorts));
    assert!(!is_retryable_error(&AppError::ServerError("bind".to_string())));
    assert!(!is_retryable_error(&AppError::StorageError("vault".to_string())));
}

#[test]
fn user_messages_name_each_kind() {
    assert_eq!(
        AppError::AuthFailed("state mismatch".to_string()).user_message(),
        "❌ Authentication failed: state mismatch"
    );
    assert_eq!(
        AppError::NetworkError(NetworkErrorKind::Timeout).user_message(),
        "⏰ Request timed out. Check your internet connection."
    );
    assert_eq!(
        AppError::NetworkError(NetworkErrorKind::Connect).user_message(),
        "🌐 Cannot connect to GitHub. Check your internet connection."
    );
    assert_eq!(
        AppError::NetworkError(NetworkErrorKind::Other("reset".to_string())).user_message(),
        "🌐 Network error: reset"
    );
    assert_eq!(
        AppError::ServerError("bind failed".to_string()).user_message(),
        "🚫 Server error: bind failed"
    );
    assert_eq!(
        AppError::StorageError("locked".to_string()).user_message(),
        "🔐 Failed to access secure storage. Please check your system keyring."
    );
    assert_eq!(
        AppError::NoAvailablePorts.user_message(),
        "🚫 No available ports for local server. Please try again."
    );
    assert_eq!(
        AppError::AuthTimeout.user_message(),
        "⏰ Authentication timed out. Please try again."
    );
    assert_eq!(
        AppError::UserCancelled.user_message(),
        "❌ Authentication was cancelled."
    );
}
