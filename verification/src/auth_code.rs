use vstd::prelude::*;

use crate::error::{AppError, NetworkErrorKind};
use crate::text::{decimal_of, join_with_spaces, push_decimal, space_joined};

verus! {

/// What a completed flow hands back to the caller.
#[derive(Debug, Clone, PartialEq, Eq)]
pub struct AuthResult {
    pub access_token: String,
    pub username: String,
}

pub uninterp spec fn pkce_challenge_of(verifier: Seq<char>) -> Seq<char>;

/// Relies on oauth2::PkceCodeChallenge::new_random_sha256: the verifier is
/// the base64url encoding of 32 fresh random bytes (43 characters), and the
/// challenge is derived from the verifier alone, as the base64url encoding
/// of its SHA-256 digest.
#[verifier::external_body]
fn fresh_pkce_pair() -> (r: (String, String))
    ensures
        r.0@.len() == 43,
        r.1@ == pkce_challenge_of(r.0@),
{
    let (challenge, verifier) = oauth2::PkceCodeChallenge::new_random_sha256();
    (verifier.secret().clone(), challenge.as_str().to_string())
}

/// Relies on oauth2::CsrfToken::new_random: a fresh base64url encoding of
/// 16 random bytes, 22 characters long.
#[verifier::external_body]
fn fresh_csrf_token() -> (r: String)
    ensures
        r@.len() == 22,
{
    oauth2::CsrfToken::new_random().secret().clone()
}

/// One authorization-code attempt: client identity, the loopback port the
/// callback listener owns, the CSRF state round-tripped through the
/// provider, and the PKCE verifier/challenge pair. The state and the
/// verifier are secrets; only the challenge and the state ever leave the
/// process, inside the authorization URL.
#[derive(Debug, Clone, PartialEq, Eq)]
pub struct AuthorizationRequest {
    pub client_id: String,
    pub scopes: Vec<String>,
    pub port: u16,
    pub csrf_state: String,
    pub pkce_verifier: String,
    pub pkce_challenge: String,
}

impl AuthorizationRequest {
    /// The challenge is exactly the one derived from the verifier.
    pub open spec fn wf(self) -> bool {
        &&& self.pkce_challenge@ == pkce_challenge_of(self.pkce_verifier@)
        &&& self.pkce_verifier@.len() == 43
        &&& self.csrf_state@.len() == 22
    }
}

/// A fresh request: a new random CSRF state and a new random PKCE pair on
/// every call, never reused across attempts.
pub fn new_authorization_request(client_id: String, scopes: Vec<String>, port: u16) -> (r:
    AuthorizationRequest)
    ensures
        r.wf(),
        r.client_id == client_id,
        r.scopes == scopes,
        r.port == port,
{
    let csrf_state = fresh_csrf_token();
    let (pkce_verifier, pkce_challenge) = fresh_pkce_pair();
    AuthorizationRequest { client_id, scopes, port, csrf_state, pkce_verifier, pkce_challenge }
}

/// The loopback redirect URI for the allocated port.
pub open spec fn redirect_uri_of(port: u16) -> Seq<char> {
    "http://127.0.0.1:"@ + decimal_of(port as nat) + "/callback"@
}

pub fn redirect_uri(port: u16) -> (r: String)
    ensures
        r@ == redirect_uri_of(port),
{
    let mut out = String::from_str("http://127.0.0.1:");
    push_decimal(port as u64, &mut out);
    out.append("/callback");
    proof {
        assert(out@ =~= redirect_uri_of(port));
    }
    out
}

pub uninterp spec fn form_encoded_of(pairs: Seq<(Seq<char>, Seq<char>)>) -> Seq<char>;

/// Relies on url::form_urlencoded::Serializer: each name and value is
/// percent-encoded and the pairs are joined `name=value`, separated by
/// `&`; the result depends on the pairs alone.
#[verifier::external_body]
pub(crate) fn form_encode(pairs: &Vec<(String, String)>) -> (r: String)
    ensures
        r@ == form_encoded_of(pairs.deep_view()),
{
    let mut serializer = url::form_urlencoded::Serializer::new(String::new());
    serializer.extend_pairs(pairs.iter().map(|(k, v)| (k, v)));
    serializer.finish()
}

/// The query parameters of the authorization URL for one request.
pub open spec fn authorize_params(req: AuthorizationRequest) -> Seq<(Seq<char>, Seq<char>)> {
    seq![
        ("client_id"@, req.client_id@),
        ("redirect_uri"@, redirect_uri_of(req.port)),
        ("scope"@, space_joined(req.scopes.deep_view())),
        ("state"@, req.csrf_state@),
        ("code_challenge"@, req.pkce_challenge@),
        ("code_challenge_method"@, "S256"@),
        ("response_type"@, "code"@),
    ]
}

/// The provider authorization URL the browser is sent to: the authorize
/// endpoint with client id, loopback redirect, space-joined scopes, CSRF
/// state, and the PKCE challenge (method S256).
pub fn build_authorize_url(auth_url: &str, req: &AuthorizationRequest) -> (r: String)
    ensures
        r@ == auth_url@ + "?"@ + form_encoded_of(authorize_params(*req)),
{
    let mut params: Vec<(String, String)> = Vec::new();
    params.push((String::from_str("client_id"), req.client_id.clone()));
    params.push((String::from_str("redirect_uri"), redirect_uri(req.port)));
    params.push((String::from_str("scope"), join_with_spaces(&req.scopes)));
    params.push((String::from_str("state"), req.csrf_state.clone()));
    params.push((String::from_str("code_challenge"), req.pkce_challenge.clone()));
    params.push((String::from_str("code_challenge_method"), String::from_str("S256")));
    params.push((String::from_str("response_type"), String::from_str("code")));
    proof {
        assert(params.deep_view() =~~= authorize_params(*req));
    }
    let encoded = form_encode(&params);
    let out = auth_url.to_owned().concat("?").concat(encoded.as_str());
    proof {
        assert(out@ =~= auth_url@ + "?"@ + form_encoded_of(authorize_params(*req)));
    }
    out
}

/// The form body of the authorization-code token exchange.
pub open spec fn token_request_params(
    client_id: Seq<char>,
    code: Seq<char>,
    port: u16,
    verifier: Seq<char>,
) -> Seq<(Seq<char>, Seq<char>)> {
    seq![
        ("grant_type"@, "authorization_code"@),
        ("code"@, code),
        ("redirect_uri"@, redirect_uri_of(port)),
        ("client_id"@, client_id),
        ("code_verifier"@, verifier),
    ]
}

/// The POST body exchanging an authorization code (plus the PKCE verifier)
/// for an access token.
pub fn build_token_request_body(client_id: &str, code: &str, port: u16, verifier: &str) -> (r:
    String)
    ensures
        r@ == form_encoded_of(token_request_params(client_id@, code@, port, verifier@)),
{
    let mut params: Vec<(String, String)> = Vec::new();
    params.push((String::from_str("grant_type"), String::from_str("authorization_code")));
    params.push((String::from_str("code"), code.to_owned()));
    params.push((String::from_str("redirect_uri"), redirect_uri(port)));
    params.push((String::from_str("client_id"), client_id.to_owned()));
    params.push((String::from_str("code_verifier"), verifier.to_owned()));
    proof {
        assert(params.deep_view() =~~= token_request_params(client_id@, code@, port, verifier@));
    }
    form_encode(&params)
}

/// What the flow does once the callback wait resolves.
#[derive(Debug, Clone, PartialEq, Eq)]
pub enum FlowStep {
    /// Exchange this authorization code for a token.
    Exchange { code: String },
    /// Abort the attempt with this error.
    Fail { error: AppError },
}

/// Maps the resolved callback outcome to the flow's next step: a granted
/// code is exchanged; denial fails with `UserCancelled`; a state mismatch
/// fails with `AuthFailed` (never silently downgraded); expiry fails with
/// `AuthTimeout`.
pub fn next_step_for_outcome(outcome: crate::callback_server::CallbackOutcome) -> (r: FlowStep)
    ensures
        (outcome matches crate::callback_server::CallbackOutcome::Granted { code } ==> r
            == FlowStep::Exchange { code }),
        (outcome is Denied ==> (r matches FlowStep::Fail { error } && error
            == AppError::UserCancelled)),
        (outcome is InvalidState ==> (r matches FlowStep::Fail { error } && error matches
            AppError::AuthFailed(m) && m@ == "state mismatch"@)),
        (outcome is TimedOut ==> (r matches FlowStep::Fail { error } && error
            == AppError::AuthTimeout)),
{
    match outcome {
        crate::callback_server::CallbackOutcome::Granted { code } => FlowStep::Exchange { code },
        crate::callback_server::CallbackOutcome::Denied { reason: _ } => FlowStep::Fail {
            error: AppError::UserCancelled,
        },
        crate::callback_server::CallbackOutcome::InvalidState => FlowStep::Fail {
            error: AppError::AuthFailed(String::from_str("state mismatch")),
        },
        crate::callback_server::CallbackOutcome::TimedOut => FlowStep::Fail {
            error: AppError::AuthTimeout,
        },
    }
}

/// The provider's answer to one token-endpoint request, as plain values.
/// The caller performs the HTTP POST and classifies the JSON body's
/// `access_token` / `error` fields into these cases before handing them
/// here.
#[derive(Debug, Clone, PartialEq, Eq)]
pub enum TokenEndpointReply {
    /// The exchange succeeded with this access token.
    Token { access_token: String },
    /// Device grant: the user has not finished authorizing yet.
    AuthorizationPending,
    /// Device grant: the provider asks for a longer poll interval.
    SlowDown,
    /// The user declined the authorization.
    AccessDenied,
    /// The code or device code has expired.
    ExpiredToken,
    /// Any other semantic rejection, e.g. an invalid grant.
    Rejected { description: String },
    /// The request never completed; retry-eligible.
    Transport { kind: NetworkErrorKind },
}

/// What the authorization-code exchange returns for each provider answer.
/// Only transport failures map to the retry-eligible `NetworkError`; every
/// rejection is a terminal `AuthFailed`.
pub fn interpret_exchange_reply(reply: TokenEndpointReply) -> (r: Result<String, AppError>)
    ensures
        (reply matches TokenEndpointReply::Token { access_token } ==> r == Ok::<String, AppError>(
            access_token,
        )),
        (reply is AuthorizationPending ==> (r matches Err(e) && e matches AppError::AuthFailed(m)
            && m@ == "authorization pending"@)),
        (reply is SlowDown ==> (r matches Err(e) && e matches AppError::AuthFailed(m) && m@
            == "slow down"@)),
        (reply is AccessDenied ==> (r matches Err(e) && e matches AppError::AuthFailed(m) && m@
            == "access denied"@)),
        (reply is ExpiredToken ==> (r matches Err(e) && e matches AppError::AuthFailed(m) && m@
            == "expired"@)),
        (reply matches TokenEndpointReply::Rejected { description } ==> (r matches Err(e)
            && e matches AppError::AuthFailed(m) && m == description)),
        (reply matches TokenEndpointReply::Transport { kind } ==> r == Err::<String, AppError>(
            AppError::NetworkError(kind),
        )),
{
    match reply {
        TokenEndpointReply::Token { access_token } => Ok(access_token),
        TokenEndpointReply::AuthorizationPending => Err(
            AppError::AuthFailed(String::from_str("authorization pending")),
        ),
        TokenEndpointReply::SlowDown => Err(AppError::AuthFailed(String::from_str("slow down"))),
        TokenEndpointReply::AccessDenied => Err(
            AppError::AuthFailed(String::from_str("access denied")),
        ),
        TokenEndpointReply::ExpiredToken => Err(AppError::AuthFailed(String::from_str("expired"))),
        TokenEndpointReply::Rejected { description } => Err(AppError::AuthFailed(description)),
        TokenEndpointReply::Transport { kind } => Err(AppError::NetworkError(kind)),
    }
}

/// The username taken from the userinfo call's `login` field, with the
/// fallback the caller shows when the field is missing.
pub fn resolve_username(login: Option<String>) -> (r: String)
    ensures
        match login {
            Some(name) => r == name,
            None => r@ == "unknown"@,
        },
{
    match login {
        Some(name) => name,
        None => String::from_str("unknown"),
    }
}

} // verus!
