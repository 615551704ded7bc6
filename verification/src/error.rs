use vstd::prelude::*;

verus! {

/// What kind of transport-level failure a `NetworkError` reports.
#[derive(Debug, Clone, PartialEq, Eq)]
pub enum NetworkErrorKind {
    /// The request timed out.
    Timeout,
    /// A connection could not be established.
    Connect,
    /// Any other transport failure, with a short description.
    Other(String),
}

/// Failure taxonomy for the authentication core.
///
/// Every failure of the flows, the port allocator, the callback listener,
/// the retry wrapper and the credential store maps to one of these kinds.
#[derive(Debug, Clone, PartialEq, Eq)]
pub enum AppError {
    /// Semantic rejection: bad state, invalid grant, provider-side denial.
    AuthFailed(String),
    /// Transient transport failure; the only retry-eligible kind.
    NetworkError(NetworkErrorKind),
    /// Local listener bind or I/O failure.
    ServerError(String),
    /// Secure-vault access failure.
    StorageError(String),
    /// Every candidate port in the configured range was taken.
    NoAvailablePorts,
    /// No resolution within the allotted window (callback or device poll).
    AuthTimeout,
    /// Explicit denial at the consent screen.
    UserCancelled,
}

/// The human-readable message shown for each error kind. Secrets never
/// appear here: the carried strings are reasons and descriptions only.
pub open spec fn message_of(e: AppError) -> Seq<char> {
    match e {
        AppError::AuthFailed(msg) => "❌ Authentication failed: "@ + msg@,
        AppError::NetworkError(kind) => match kind {
            NetworkErrorKind::Timeout => "⏰ Request timed out. Check your internet connection."@,
            NetworkErrorKind::Connect => "🌐 Cannot connect to GitHub. Check your internet connection."@,
            NetworkErrorKind::Other(detail) => "🌐 Network error: "@ + detail@,
        },
        AppError::ServerError(msg) => "🚫 Server error: "@ + msg@,
        AppError::StorageError(_) => "🔐 Failed to access secure storage. Please check your system keyring."@,
        AppError::NoAvailablePorts => "🚫 No available ports for local server. Please try again."@,
        AppError::AuthTimeout => "⏰ Authentication timed out. Please try again."@,
        AppError::UserCancelled => "❌ Authentication was cancelled."@,
    }
}

impl AppError {
    /// Whether retrying the failed operation could change the outcome.
    /// Only transport failures qualify; semantic rejections never do.
    pub open spec fn spec_is_retryable(self) -> bool {
        self is NetworkError
    }

    pub fn is_retryable(&self) -> (r: bool)
        ensures
            r == self.spec_is_retryable(),
    {
        match self {
            AppError::NetworkError(_) => true,
            _ => false,
        }
    }

    /// Short human-readable message for this error kind.
    pub fn user_message(&self) -> (r: String)
        ensures
            r@ == message_of(*self),
    {
        match self {
            AppError::AuthFailed(msg) => String::from_str("❌ Authentication failed: ").concat(
                msg.as_str(),
            ),
            AppError::NetworkError(kind) => match kind {
                NetworkErrorKind::Timeout => String::from_str(
                    "⏰ Request timed out. Check your internet connection.",
                ),
                NetworkErrorKind::Connect => String::from_str(
                    "🌐 Cannot connect to GitHub. Check your internet connection.",
                ),
                NetworkErrorKind::Other(detail) => String::from_str("🌐 Network error: ").concat(
                    detail.as_str(),
                ),
            },
            AppError::ServerError(msg) => String::from_str("🚫 Server error: ").concat(
                msg.as_str(),
            ),
            AppError::StorageError(_) => String::from_str(
                "🔐 Failed to access secure storage. Please check your system keyring.",
            ),
            AppError::NoAvailablePorts => String::from_str(
                "🚫 No available ports for local server. Please try again.",
            ),
            AppError::AuthTimeout => String::from_str(
                "⏰ Authentication timed out. Please try again.",
            ),
            AppError::UserCancelled => String::from_str("❌ Authentication was cancelled."),
        }
    }
}

} // verus!
