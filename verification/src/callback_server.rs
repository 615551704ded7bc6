use vstd::prelude::*;

use crate::text::{eq_str, fixed_scan_eq_str};

verus! {

/// Terminal result of waiting for the OAuth redirect, consumed exactly once
/// by the flow that awaits it.
#[derive(Debug, Clone, PartialEq, Eq)]
pub enum CallbackOutcome {
    /// A state-valid callback delivered this authorization code.
    Granted { code: String },
    /// The user or the provider declined; the reason is a short phrase,
    /// never a secret.
    Denied { reason: String },
    /// The request ceiling was exhausted by state-mismatched callbacks.
    InvalidState,
    /// The deadline elapsed, or the ceiling was exhausted by noise requests.
    TimedOut,
}

/// Spec-level shape of a `CallbackOutcome`.
pub enum OutcomeModel {
    Granted(Seq<char>),
    Denied(Seq<char>),
    InvalidState,
    TimedOut,
}

impl View for CallbackOutcome {
    type V = OutcomeModel;

    open spec fn view(&self) -> OutcomeModel {
        match self {
            CallbackOutcome::Granted { code } => OutcomeModel::Granted(code@),
            CallbackOutcome::Denied { reason } => OutcomeModel::Denied(reason@),
            CallbackOutcome::InvalidState => OutcomeModel::InvalidState,
            CallbackOutcome::TimedOut => OutcomeModel::TimedOut,
        }
    }
}

/// One HTTP response the listener sends back to the user's browser.
#[derive(Debug, Clone, PartialEq, Eq)]
pub struct HttpReply {
    pub status: u16,
    pub body: String,
}

/// Spec-level shape of an `HttpReply`.
pub struct ReplyModel {
    pub status: int,
    pub body: Seq<char>,
}

impl View for HttpReply {
    type V = ReplyModel;

    open spec fn view(&self) -> ReplyModel {
        ReplyModel { status: self.status as int, body: self.body@ }
    }
}

/// Spec-level shape of an optional reply.
pub open spec fn reply_view(r: Option<HttpReply>) -> Option<ReplyModel> {
    match r {
        Some(rep) => Some(rep@),
        None => None,
    }
}

/// Spec-level shape of an optional outcome.
pub open spec fn outcome_view(r: Option<CallbackOutcome>) -> Option<OutcomeModel> {
    match r {
        Some(o) => Some(o@),
        None => None,
    }
}

/// The value of the first query pair named `name`, if any.
pub open spec fn lookup_param(pairs: Seq<(Seq<char>, Seq<char>)>, name: Seq<char>) -> Option<
    Seq<char>,
>
    decreases pairs.len(),
{
    if pairs.len() == 0 {
        None
    } else if pairs[0].0 == name {
        Some(pairs[0].1)
    } else {
        lookup_param(pairs.drop_first(), name)
    }
}

/// Validation state of the loopback listener for one authorization attempt.
///
/// The listener itself (socket accept loop, response writing, the wall-clock
/// deadline) lives outside; it feeds every request target into this machine
/// and sends back whatever reply the machine dictates. At most one outcome is
/// ever produced, and once one is produced no further request changes
/// anything.
pub struct CallbackServer {
    expected_state: String,
    outcome: Option<CallbackOutcome>,
    attempts_left: u64,
}

/// Spec-level state of a `CallbackServer`.
pub struct ServerModel {
    pub expected_state: Seq<char>,
    pub outcome: Option<OutcomeModel>,
    pub attempts_left: nat,
}

impl View for CallbackServer {
    type V = ServerModel;

    closed spec fn view(&self) -> ServerModel {
        ServerModel {
            expected_state: self.expected_state@,
            outcome: outcome_view(self.outcome),
            attempts_left: self.attempts_left as nat,
        }
    }
}

impl ServerModel {
    /// While no outcome is resolved, at least one request is still allowed.
    pub open spec fn wf(self) -> bool {
        self.outcome is None ==> self.attempts_left >= 1
    }
}

/// The reason recorded for a denial callback.
pub open spec fn denial_reason(error: Seq<char>) -> Seq<char> {
    if error == "access_denied"@ {
        "user declined"@
    } else {
        "flow failed"@
    }
}

/// The page shown to the browser for a denial callback.
pub open spec fn denial_body(error: Seq<char>) -> Seq<char> {
    if error == "access_denied"@ {
        "Error: You denied access to the application."@
    } else {
        "Error: Authentication failed."@
    }
}

/// A non-terminal request consumes one attempt of the hard ceiling; the
/// request that exhausts it resolves `exhausted`.
pub open spec fn consume_attempt(s: ServerModel, exhausted: OutcomeModel) -> ServerModel {
    if s.attempts_left <= 1 {
        ServerModel { outcome: Some(exhausted), attempts_left: 0, ..s }
    } else {
        ServerModel { attempts_left: (s.attempts_left - 1) as nat, ..s }
    }
}

/// How one parsed callback request transforms the listener state, and which
/// reply (if any) is sent to the browser:
/// - after resolution, requests are not processed at all;
/// - an `error` parameter resolves `Denied` with HTTP 400;
/// - a `code`/`state` pair whose state matches resolves `Granted` with
///   HTTP 200;
/// - a mismatched state is answered HTTP 400 but does not resolve, so a
///   forged probe cannot poison a pending flow;
/// - anything else (e.g. a favicon probe) is ignored.
pub open spec fn request_step(s: ServerModel, pairs: Seq<(Seq<char>, Seq<char>)>) -> (
    ServerModel,
    Option<ReplyModel>,
) {
    if s.outcome is Some {
        (s, None::<ReplyModel>)
    } else {
        match lookup_param(pairs, "error"@) {
            Some(error) => (
                ServerModel { outcome: Some(OutcomeModel::Denied(denial_reason(error))), ..s },
                Some(ReplyModel { status: 400, body: denial_body(error) }),
            ),
            None => match (lookup_param(pairs, "code"@), lookup_param(pairs, "state"@)) {
                (Some(code), Some(state)) => if state == s.expected_state {
                    (
                        ServerModel { outcome: Some(OutcomeModel::Granted(code)), ..s },
                        Some(
                            ReplyModel {
                                status: 200,
                                body: "Authentication successful! You can close this window."@,
                            },
                        ),
                    )
                } else {
                    (
                        consume_attempt(s, OutcomeModel::InvalidState),
                        Some(
                            ReplyModel {
                                status: 400,
                                body: "Security error: Invalid state parameter."@,
                            },
                        ),
                    )
                },
                _ => (consume_attempt(s, OutcomeModel::TimedOut), None::<ReplyModel>),
            },
        }
    }
}

/// How the wall-clock deadline transforms the listener state: a pending wait
/// resolves `TimedOut`; a resolved one is left alone.
pub open spec fn deadline_step(s: ServerModel) -> ServerModel {
    if s.outcome is None {
        ServerModel { outcome: Some(OutcomeModel::TimedOut), ..s }
    } else {
        s
    }
}

/// The value of the first query pair named `name`, if any.
pub fn find_param(pairs: &Vec<(String, String)>, name: &str) -> (r: Option<String>)
    ensures
        ({
            let l = lookup_param(pairs.deep_view(), name@);
            match r {
                Some(v) => l matches Some(lv) && v@ == lv,
                None => l is None,
            }
        }),
{
    let ghost model = pairs.deep_view();
    let mut i: usize = 0;
    proof {
        assert(model.skip(0) =~= model);
    }
    while i < pairs.len()
        invariant
            i <= pairs.len(),
            model == pairs.deep_view(),
            model.len() == pairs.len(),
            forall|k: int|
                0 <= k < pairs.len() ==> model[k] == (pairs@[k].0@, pairs@[k].1@),
            lookup_param(model, name@) == lookup_param(model.skip(i as int), name@),
        decreases pairs.len() - i,
    {
        if eq_str(pairs[i].0.as_str(), name) {
            proof {
                assert(model.skip(i as int)[0] == model[i as int]);
                assert(lookup_param(model.skip(i as int), name@) == Some(model[i as int].1));
            }
            return Some(pairs[i].1.clone());
        }
        proof {
            assert(model.skip(i as int).drop_first() =~= model.skip(i as int + 1));
        }
        i = i + 1;
    }
    proof {
        assert(model.skip(pairs.len() as int) =~= Seq::<(Seq<char>, Seq<char>)>::empty());
    }
    None
}

pub uninterp spec fn target_query_pairs(target: Seq<char>) -> Seq<(Seq<char>, Seq<char>)>;

/// Relies on url::Url::parse and url::Url::query_pairs: the request target
/// (e.g. "/callback?code=x&state=y") is resolved against a fixed loopback
/// base and its query string is decoded into key/value pairs, a pure
/// function of the target. A target that is not a valid relative URL yields
/// no pairs, as a query-less target does.
#[verifier::external_body]
fn parse_target_pairs(target: &str) -> (r: Vec<(String, String)>)
    ensures
        r.deep_view() == target_query_pairs(target@),
{
    match url::Url::parse(&format!("http://localhost{}", target)) {
        Ok(parsed) => parsed.query_pairs().into_owned().collect(),
        Err(_) => Vec::new(),
    }
}

impl CallbackServer {
    /// A listener waiting for a callback that echoes `expected_state`, with
    /// a hard ceiling of `max_attempts` non-terminal requests as a backstop
    /// against a stalled clock.
    pub fn new(expected_state: String, max_attempts: u64) -> (s: Self)
        requires
            max_attempts >= 1,
        ensures
            s@ == (ServerModel {
                expected_state: expected_state@,
                outcome: None::<OutcomeModel>,
                attempts_left: max_attempts as nat,
            }),
            s@.wf(),
    {
        CallbackServer { expected_state, outcome: None, attempts_left: max_attempts }
    }

    /// Whether a terminal outcome has been produced.
    pub fn is_resolved(&self) -> (r: bool)
        ensures
            r == (self@.outcome is Some),
    {
        self.outcome.is_some()
    }

    /// The terminal outcome, once the wait is over.
    pub fn into_outcome(self) -> (r: Option<CallbackOutcome>)
        ensures
            outcome_view(r) == self@.outcome,
    {
        self.outcome
    }

    /// Feeds one already-parsed request into the machine; the caller sends
    /// back the returned reply, if any.
    pub fn on_request_pairs(&mut self, pairs: &Vec<(String, String)>) -> (reply: Option<HttpReply>)
        requires
            old(self)@.wf(),
        ensures
            final(self)@.wf(),
            (final(self)@, reply_view(reply)) == request_step(old(self)@, pairs.deep_view()),
    {
        if self.outcome.is_some() {
            return None;
        }
        match find_param(pairs, "error") {
            Some(error) => {
                let access_denied = eq_str(error.as_str(), "access_denied");
                let reason = if access_denied {
                    String::from_str("user declined")
                } else {
                    String::from_str("flow failed")
                };
                let body = if access_denied {
                    String::from_str("Error: You denied access to the application.")
                } else {
                    String::from_str("Error: Authentication failed.")
                };
                self.outcome = Some(CallbackOutcome::Denied { reason });
                Some(HttpReply { status: 400, body })
            },
            None => {
                let code = find_param(pairs, "code");
                let state = find_param(pairs, "state");
                match (code, state) {
                    (Some(code), Some(state)) => {
                        // Full-scan comparison: no timing short-circuit on
                        // the secret state parameter.
                        if fixed_scan_eq_str(state.as_str(), self.expected_state.as_str()) {
                            self.outcome = Some(CallbackOutcome::Granted { code });
                            Some(
                                HttpReply {
                                    status: 200,
                                    body: String::from_str(
                                        "Authentication successful! You can close this window.",
                                    ),
                                },
                            )
                        } else {
                            if self.attempts_left <= 1 {
                                self.attempts_left = 0;
                                self.outcome = Some(CallbackOutcome::InvalidState);
                            } else {
                                self.attempts_left = self.attempts_left - 1;
                            }
                            Some(
                                HttpReply {
                                    status: 400,
                                    body: String::from_str(
                                        "Security error: Invalid state parameter.",
                                    ),
                                },
                            )
                        }
                    },
                    _ => {
                        if self.attempts_left <= 1 {
                            self.attempts_left = 0;
                            self.outcome = Some(CallbackOutcome::TimedOut);
                        } else {
                            self.attempts_left = self.attempts_left - 1;
                        }
                        None
                    },
                }
            },
        }
    }

    /// Feeds one raw request target (path and query) into the machine.
    pub fn on_request(&mut self, target: &str) -> (reply: Option<HttpReply>)
        requires
            old(self)@.wf(),
        ensures
            final(self)@.wf(),
            (final(self)@, reply_view(reply)) == request_step(
                old(self)@,
                target_query_pairs(target@),
            ),
    {
        let pairs = parse_target_pairs(target);
        self.on_request_pairs(&pairs)
    }

    /// Resolves `TimedOut` when the configured deadline elapses first.
    pub fn on_deadline(&mut self)
        ensures
            final(self)@ == deadline_step(old(self)@),
    {
        if self.outcome.is_none() {
            self.outcome = Some(CallbackOutcome::TimedOut);
        }
    }
}

/// A state-mismatched callback is rejected with HTTP 400 and does not
/// resolve the pending result; a later request carrying the correct state
/// still resolves `Granted` with its code. (With exactly one attempt left,
/// the mismatch instead exhausts the ceiling, so that case is excluded.)
pub proof fn lemma_mismatch_does_not_poison(
    s: ServerModel,
    forged: Seq<(Seq<char>, Seq<char>)>,
    genuine: Seq<(Seq<char>, Seq<char>)>,
)
    requires
        s.outcome is None,
        s.attempts_left >= 2,
        lookup_param(forged, "error"@) is None,
        lookup_param(forged, "code"@) is Some,
        lookup_param(forged, "state"@) matches Some(st) && st != s.expected_state,
        lookup_param(genuine, "error"@) is None,
        lookup_param(genuine, "code"@) is Some,
        lookup_param(genuine, "state"@) == Some(s.expected_state),
    ensures
        ({
            let (s1, r1) = request_step(s, forged);
            let (s2, r2) = request_step(s1, genuine);
            &&& r1 matches Some(rep1) && rep1.status == 400
            &&& s1.outcome is None
            &&& s2.outcome == Some(OutcomeModel::Granted(lookup_param(genuine, "code"@)->0))
            &&& r2 matches Some(rep2) && rep2.status == 200
        }),
{
}

/// At most one outcome is ever accepted: once the listener has resolved —
/// whether granted, denied or timed out — any further request leaves the
/// state unchanged and is not answered.
pub proof fn lemma_resolved_requests_ignored(s: ServerModel, later: Seq<(Seq<char>, Seq<char>)>)
    requires
        s.outcome is Some,
    ensures
        request_step(s, later) == (s, None::<ReplyModel>),
{
}

/// A callback carrying `error=access_denied` resolves `Denied("user
/// declined")` exactly once; any request arriving after resolution leaves
/// the state unchanged and is not answered.
pub proof fn lemma_denial_resolves_once(
    s: ServerModel,
    denial: Seq<(Seq<char>, Seq<char>)>,
    later: Seq<(Seq<char>, Seq<char>)>,
)
    requires
        s.outcome is None,
        lookup_param(denial, "error"@) == Some("access_denied"@),
    ensures
        ({
            let (s1, r1) = request_step(s, denial);
            let (s2, r2) = request_step(s1, later);
            &&& s1.outcome == Some(OutcomeModel::Denied("user declined"@))
            &&& r1 matches Some(rep1) && rep1.status == 400
            &&& s2 == s1
            &&& r2 is None
        }),
{
}

/// A pending wait whose deadline elapses resolves `TimedOut`, and requests
/// arriving after that are not processed.
pub proof fn lemma_timeout_resolves(s: ServerModel, later: Seq<(Seq<char>, Seq<char>)>)
    requires
        s.outcome is None,
    ensures
        ({
            let s1 = deadline_step(s);
            let (s2, r2) = request_step(s1, later);
            &&& s1.outcome == Some(OutcomeModel::TimedOut)
            &&& s2 == s1
            &&& r2 is None
        }),
{
}

} // verus!
