use vstd::prelude::*;

use crate::auth_code::TokenEndpointReply;
use crate::error::AppError;
use crate::retry::sat_double;

verus! {

/// What the provider's device-authorization endpoint issued: the polled
/// secret, the code and URL shown to the user, and the polling bounds.
#[derive(Debug, Clone, PartialEq, Eq)]
pub struct DeviceAuthorization {
    /// Opaque secret used to poll the token endpoint; never displayed.
    pub device_code: String,
    /// The short code the user types at the verification URL.
    pub user_code: String,
    /// Where the user authorizes, on any browser.
    pub verification_uri: String,
    /// Lifetime of the device code, in seconds.
    pub expires_in: u64,
    /// Poll interval requested by the provider, in seconds.
    pub interval: u64,
}

/// What the caller must do after one poll of the token endpoint.
#[derive(Debug, Clone, PartialEq, Eq)]
pub enum PollDecision {
    /// Sleep this many seconds, then poll again.
    Sleep { delay_secs: u64 },
    /// Authorization completed with this access token.
    Success { access_token: String },
    /// Stop polling and surface this error.
    Fail { error: AppError },
}

/// Addition saturating at the largest representable value.
pub open spec fn sat_add(a: u64, b: u64) -> u64 {
    if a + b > u64::MAX {
        u64::MAX
    } else {
        (a + b) as u64
    }
}

/// Progress of one device-grant polling loop.
///
/// The caller performs the HTTP polls and the sleeps; this machine decides
/// after each provider answer whether to keep polling, honouring
/// `slow_down` by doubling the interval, continuing on
/// `authorization_pending`, and giving up with `AuthTimeout` once the
/// accumulated sleep would pass `expires_in`.
#[derive(Debug, Clone, Copy, PartialEq, Eq, Structural)]
pub struct DevicePoll {
    /// Current poll interval, in seconds.
    pub interval: u64,
    /// Total seconds slept so far.
    pub elapsed: u64,
    /// Lifetime of the device code, in seconds.
    pub expires_in: u64,
}

impl DevicePoll {
    /// A fresh polling loop for one device authorization.
    pub fn new(auth: &DeviceAuthorization) -> (s: Self)
        ensures
            s == (DevicePoll { interval: auth.interval, elapsed: 0, expires_in: auth.expires_in }),
    {
        DevicePoll { interval: auth.interval, elapsed: 0, expires_in: auth.expires_in }
    }

    /// Decides what follows one provider answer:
    /// - a token ends the loop successfully;
    /// - `authorization_pending` keeps polling at the current interval,
    ///   unless the next sleep would pass the expiry, which times out;
    /// - `slow_down` doubles the interval first, with the same expiry rule;
    /// - `access_denied` fails with `AuthFailed`, expiry with `AuthTimeout`;
    /// - other rejections fail with `AuthFailed`, transport failures with
    ///   the retry-eligible `NetworkError`.
    pub fn on_reply(&mut self, reply: TokenEndpointReply) -> (d: PollDecision)
        ensures
            (reply matches TokenEndpointReply::Token { access_token } ==> *final(self) == *old(self)
                && d == (PollDecision::Success { access_token })),
            (reply is AuthorizationPending ==> if sat_add(old(self).elapsed, old(self).interval)
                >= old(self).expires_in {
                *final(self) == *old(self) && d == (PollDecision::Fail {
                    error: AppError::AuthTimeout,
                })
            } else {
                *final(self) == (DevicePoll {
                    elapsed: sat_add(old(self).elapsed, old(self).interval),
                    ..*old(self)
                }) && d == (PollDecision::Sleep { delay_secs: old(self).interval })
            }),
            (reply is SlowDown ==> ({
                let slowed = sat_double(old(self).interval);
                if sat_add(old(self).elapsed, slowed) >= old(self).expires_in {
                    *final(self) == *old(self) && d == (PollDecision::Fail {
                        error: AppError::AuthTimeout,
                    })
                } else {
                    *final(self) == (DevicePoll {
                        interval: slowed,
                        elapsed: sat_add(old(self).elapsed, slowed),
                        ..*old(self)
                    }) && d == (PollDecision::Sleep { delay_secs: slowed })
                }
            })),
            (reply is AccessDenied ==> (d matches PollDecision::Fail { error } && error matches
                AppError::AuthFailed(m) && m@ == "access denied"@ && *final(self) == *old(self))),
            (reply is ExpiredToken ==> *final(self) == *old(self) && d == (PollDecision::Fail {
                error: AppError::AuthTimeout,
            })),
            (reply matches TokenEndpointReply::Rejected { description } ==> (d matches
                PollDecision::Fail { error } && error matches AppError::AuthFailed(m) && m
                == description && *final(self) == *old(self))),
            (reply matches TokenEndpointReply::Transport { kind } ==> *final(self) == *old(self) && d
                == (PollDecision::Fail { error: AppError::NetworkError(kind) })),
    {
        match reply {
            TokenEndpointReply::Token { access_token } => PollDecision::Success { access_token },
            TokenEndpointReply::AuthorizationPending => {
                let next_elapsed = if self.interval > u64::MAX - self.elapsed {
                    u64::MAX
                } else {
                    self.elapsed + self.interval
                };
                if next_elapsed >= self.expires_in {
                    PollDecision::Fail { error: AppError::AuthTimeout }
                } else {
                    let delay = self.interval;
                    self.elapsed = next_elapsed;
                    PollDecision::Sleep { delay_secs: delay }
                }
            },
            TokenEndpointReply::SlowDown => {
                let slowed = if self.interval > u64::MAX / 2 {
                    u64::MAX
                } else {
                    2 * self.interval
                };
                let next_elapsed = if slowed > u64::MAX - self.elapsed {
                    u64::MAX
                } else {
                    self.elapsed + slowed
                };
                if next_elapsed >= self.expires_in {
                    PollDecision::Fail { error: AppError::AuthTimeout }
                } else {
                    self.interval = slowed;
                    self.elapsed = next_elapsed;
                    PollDecision::Sleep { delay_secs: slowed }
                }
            },
            TokenEndpointReply::AccessDenied => PollDecision::Fail {
                error: AppError::AuthFailed(String::from_str("access denied")),
            },
            TokenEndpointReply::ExpiredToken => PollDecision::Fail { error: AppError::AuthTimeout },
            TokenEndpointReply::Rejected { description } => PollDecision::Fail {
                error: AppError::AuthFailed(description),
            },
            TokenEndpointReply::Transport { kind } => PollDecision::Fail {
                error: AppError::NetworkError(kind),
            },
        }
    }
}

/// The form body requesting a device authorization.
pub open spec fn device_auth_params(client_id: Seq<char>, scope: Seq<char>) -> Seq<
    (Seq<char>, Seq<char>),
> {
    seq![("client_id"@, client_id), ("scope"@, scope)]
}

/// The form body polling the token endpoint with a device code.
pub open spec fn device_token_params(client_id: Seq<char>, device_code: Seq<char>) -> Seq<
    (Seq<char>, Seq<char>),
> {
    seq![
        ("grant_type"@, "urn:ietf:params:oauth:grant-type:device_code"@),
        ("device_code"@, device_code),
        ("client_id"@, client_id),
    ]
}

/// The POST body requesting a device authorization for these scopes.
pub fn build_device_auth_body(client_id: &str, scope: &str) -> (r: String)
    ensures
        r@ == crate::auth_code::form_encoded_of(device_auth_params(client_id@, scope@)),
{
    let mut params: Vec<(String, String)> = Vec::new();
    params.push((String::from_str("client_id"), client_id.to_owned()));
    params.push((String::from_str("scope"), scope.to_owned()));
    proof {
        assert(params.deep_view() =~~= device_auth_params(client_id@, scope@));
    }
    crate::auth_code::form_encode(&params)
}

/// The POST body polling the token endpoint for one device code.
pub fn build_device_token_body(client_id: &str, device_code: &str) -> (r: String)
    ensures
        r@ == crate::auth_code::form_encoded_of(device_token_params(client_id@, device_code@)),
{
    let mut params: Vec<(String, String)> = Vec::new();
    params.push(
        (
            String::from_str("grant_type"),
            String::from_str("urn:ietf:params:oauth:grant-type:device_code"),
        ),
    );
    params.push((String::from_str("device_code"), device_code.to_owned()));
    params.push((String::from_str("client_id"), client_id.to_owned()));
    proof {
        assert(params.deep_view() =~~= device_token_params(client_id@, device_code@));
    }
    crate::auth_code::form_encode(&params)
}

} // verus!
