//! The device-authorization login flow: starting a verification, and the
//! poller that exchanges a device code for a bearer token.
//!
//! The poller is an explicit state machine. The caller performs one HTTP poll
//! per step, hands the status and body to `Poller::on_response`, and sleeps
//! `Poller::next_poll_delay` seconds before the next poll, so the timing and
//! retry rules are stated and checked here while the I/O stays outside.

use crate::error::Error as ApiError;
use crate::json::{json_doc_of, obj_lookup, parse_json, JsonValue};
use crate::wire::{get_req_string, get_req_u64, opt_str_val, req_str_ok, req_u64_ok, req_u64_val};
use vstd::prelude::*;

verus! {

/// The client identity from which a bearer token is obtained. The id and
/// secret are injected by the caller, never compiled in.
#[derive(Debug)]
pub struct DeviceAuthenticator {
    pub client_id: String,
    pub client_secret: String,
}

/// The artifact of starting the flow: the device code the token endpoint is
/// polled with, the URL/code pair the user approves out-of-band, and the
/// polling interval the server dictates, in whole seconds.
#[derive(Debug)]
pub struct VerificationToken {
    pub code: String,
    pub verification_uri: String,
    pub verification_uri_complete: String,
    pub polling_interval: u64,
}

/// Failures of the login flow's HTTP calls, by kind.
#[derive(Debug)]
pub enum Error {
    HttpRequestError,
    ParsingError,
    GenericError,
}

/// A terminal authentication failure, carrying the status that ended the
/// flow where one was received.
#[derive(Debug)]
pub enum DeviceAuthenticationError {
    HttpError(u16),
    UnknownError,
}

/// Classifies a failed request of the login flow: a bad status, a body that
/// did not decode, or anything else.
pub fn classify_auth_fault(is_status: bool, is_decode: bool) -> (e: Error)
    ensures
        is_status ==> e is HttpRequestError,
        !is_status && is_decode ==> e is ParsingError,
        !is_status && !is_decode ==> e is GenericError,
{
    if is_status {
        Error::HttpRequestError
    } else if is_decode {
        Error::ParsingError
    } else {
        Error::GenericError
    }
}

impl DeviceAuthenticator {
    pub fn new(client_id: &str, client_secret: &str) -> (a: DeviceAuthenticator)
        ensures
            a.client_id@ == client_id@,
            a.client_secret@ == client_secret@,
    {
        DeviceAuthenticator {
            client_id: client_id.to_owned(),
            client_secret: client_secret.to_owned(),
        }
    }

    /// The form parameters of the authorization request: the client id, and
    /// the platform's full-access scope.
    pub fn authorize_form(&self) -> (ps: Vec<(String, String)>)
        ensures
            ps@.len() == 2,
            ps@[0].0@ == "client_id"@ && ps@[0].1@ == self.client_id@,
            ps@[1].0@ == "scope"@ && ps@[1].1@ == "spark:all"@,
    {
        let mut ps: Vec<(String, String)> = Vec::new();
        ps.push(("client_id".to_owned(), self.client_id.clone()));
        ps.push(("scope".to_owned(), "spark:all".to_owned()));
        ps
    }

    /// The form parameters of a token poll: the device-code grant type, the
    /// device code under exchange, and the client id.
    pub fn token_form(&self, verification_token: &VerificationToken) -> (ps: Vec<
        (String, String),
    >)
        ensures
            ps@.len() == 3,
            ps@[0].0@ == "grant_type"@ && ps@[0].1@
                == "urn:ietf:params:oauth:grant-type:device_code"@,
            ps@[1].0@ == "device_code"@ && ps@[1].1@ == verification_token.code@,
            ps@[2].0@ == "client_id"@ && ps@[2].1@ == self.client_id@,
    {
        let mut ps: Vec<(String, String)> = Vec::new();
        ps.push(
            (
                "grant_type".to_owned(),
                "urn:ietf:params:oauth:grant-type:device_code".to_owned(),
            ),
        );
        ps.push(("device_code".to_owned(), verification_token.code.clone()));
        ps.push(("client_id".to_owned(), self.client_id.clone()));
        ps
    }
}

// ---------------------------------------------------------------------------
// Response decoding
// ---------------------------------------------------------------------------
/// The authorization endpoint's response to starting the flow.
#[derive(Debug)]
pub struct AuthorizeResponse {
    pub device_code: String,
    pub expires_in: u64,
    pub user_code: String,
    pub verification_uri: String,
    pub verification_uri_complete: String,
    pub interval: u64,
}

/// The documents that decode as an authorization response: every field is
/// required, the counters non-negative.
pub open spec fn authorize_ok(j: JsonValue) -> bool {
    &&& j matches JsonValue::Obj(o)
    &&& req_str_ok(o, "device_code"@)
    &&& req_u64_ok(o, "expires_in"@)
    &&& req_str_ok(o, "user_code"@)
    &&& req_str_ok(o, "verification_uri"@)
    &&& req_str_ok(o, "verification_uri_complete"@)
    &&& req_u64_ok(o, "interval"@)
}

/// Pins a decoded authorization response against its document.
pub open spec fn authorize_matches(a: AuthorizeResponse, j: JsonValue) -> bool {
    &&& j matches JsonValue::Obj(o)
    &&& opt_str_val(o, "device_code"@) == Some(a.device_code@)
    &&& req_u64_val(o, "expires_in"@) == Some(a.expires_in as int)
    &&& opt_str_val(o, "user_code"@) == Some(a.user_code@)
    &&& opt_str_val(o, "verification_uri"@) == Some(a.verification_uri@)
    &&& opt_str_val(o, "verification_uri_complete"@) == Some(a.verification_uri_complete@)
    &&& req_u64_val(o, "interval"@) == Some(a.interval as int)
}

/// Decodes the authorization endpoint's response.
pub fn decode_authorize_response(bytes: &[u8]) -> (r: Result<AuthorizeResponse, ApiError>)
    ensures
        match json_doc_of(bytes@) {
            None => r matches Err(e) && e is JsonParsingError,
            Some(j) => if authorize_ok(j) {
                r matches Ok(a) && authorize_matches(a, j)
            } else {
                r matches Err(e) && e is JsonParsingError
            },
        },
{
    let doc = match parse_json(bytes) {
        Err(m) => {
            return Err(ApiError::JsonParsingError(m));
        },
        Ok(doc) => doc,
    };
    let o = match &doc {
        JsonValue::Obj(o) => o,
        _ => {
            return Err(
                ApiError::JsonParsingError("unexpected shape for authorize response".to_owned()),
            );
        },
    };
    let device_code = match get_req_string(o, "device_code") {
        Ok(s) => s,
        Err(e) => {
            return Err(e);
        },
    };
    let expires_in = match get_req_u64(o, "expires_in") {
        Ok(x) => x,
        Err(e) => {
            return Err(e);
        },
    };
    let user_code = match get_req_string(o, "user_code") {
        Ok(s) => s,
        Err(e) => {
            return Err(e);
        },
    };
    let verification_uri = match get_req_string(o, "verification_uri") {
        Ok(s) => s,
        Err(e) => {
            return Err(e);
        },
    };
    let verification_uri_complete = match get_req_string(o, "verification_uri_complete") {
        Ok(s) => s,
        Err(e) => {
            return Err(e);
        },
    };
    let interval = match get_req_u64(o, "interval") {
        Ok(x) => x,
        Err(e) => {
            return Err(e);
        },
    };
    Ok(
        AuthorizeResponse {
            device_code,
            expires_in,
            user_code,
            verification_uri,
            verification_uri_complete,
            interval,
        },
    )
}

impl VerificationToken {
    /// The verification artifact kept from an authorization response: the
    /// device code, the two user-facing URLs, and the polling interval.
    pub fn from_authorize_response(a: &AuthorizeResponse) -> (t: VerificationToken)
        ensures
            t.code@ == a.device_code@,
            t.verification_uri@ == a.verification_uri@,
            t.verification_uri_complete@ == a.verification_uri_complete@,
            t.polling_interval == a.interval,
    {
        VerificationToken {
            code: a.device_code.clone(),
            verification_uri: a.verification_uri.clone(),
            verification_uri_complete: a.verification_uri_complete.clone(),
            polling_interval: a.interval,
        }
    }
}

/// The access token inside a token response document, where the document is
/// an object carrying one as a string.
pub open spec fn access_token_in(doc: Option<JsonValue>) -> Option<Seq<char>> {
    match doc {
        Some(JsonValue::Obj(o)) => match obj_lookup(o, "access_token"@) {
            Some(JsonValue::Str(s)) => Some(s@),
            _ => None,
        },
        _ => None,
    }
}

/// Decodes the token endpoint's success response down to the bearer token.
pub fn decode_access_token(bytes: &[u8]) -> (r: Result<String, ApiError>)
    ensures
        match access_token_in(json_doc_of(bytes@)) {
            Some(t) => r matches Ok(s) && s@ == t,
            None => r matches Err(e) && e is JsonParsingError,
        },
{
    let doc = match parse_json(bytes) {
        Err(m) => {
            return Err(ApiError::JsonParsingError(m));
        },
        Ok(doc) => doc,
    };
    let o = match &doc {
        JsonValue::Obj(o) => o,
        _ => {
            return Err(
                ApiError::JsonParsingError("unexpected shape for token response".to_owned()),
            );
        },
    };
    match get_req_string(o, "access_token") {
        Ok(s) => Ok(s),
        Err(e) => Err(e),
    }
}

// ---------------------------------------------------------------------------
// The poller
// ---------------------------------------------------------------------------
/// What one token poll decided.
#[derive(Debug)]
pub enum PollStep {
    Authorized(String),
    Pending,
    Failed(ApiError),
}

/// The token poller's state: the server-dictated interval, how many polls
/// have been made, and whether a poll has ended the flow. The caller does the
/// HTTP call and the sleep; every decision is made here.
#[derive(Debug)]
pub struct Poller {
    pub interval: u64,
    pub polls_made: u64,
    pub finished: bool,
}

impl Poller {
    /// The interval must leave room for the one-second safety margin.
    pub open spec fn wf(self) -> bool {
        self.interval < u64::MAX
    }

    pub fn new(t: &VerificationToken) -> (p: Poller)
        requires
            t.polling_interval < u64::MAX,
        ensures
            p.wf(),
            p.interval == t.polling_interval,
            p.polls_made == 0,
            !p.finished,
    {
        Poller { interval: t.polling_interval, polls_made: 0, finished: false }
    }

    /// Seconds to wait before the next poll: the server's interval before the
    /// first poll, one second more between later polls — a deliberate safety
    /// margin against server-side rate limiting.
    pub fn next_poll_delay(&self) -> (d: u64)
        requires
            self.wf(),
            !self.finished,
        ensures
            d == spec_poll_delay(self.interval, self.polls_made as nat),
    {
        if self.polls_made == 0 {
            self.interval
        } else {
            self.interval + 1
        }
    }

    /// Applies one poll response. A 200 whose body carries the access token
    /// is the single success exit; 428 (authorization pending) is the only
    /// retryable status; any other status ends the flow at once, carrying
    /// that status.
    pub fn on_response(&mut self, status: u16, body: &[u8]) -> (s: PollStep)
        requires
            old(self).wf(),
            !old(self).finished,
            old(self).polls_made < u64::MAX,
        ensures
            final(self).wf(),
            final(self).interval == old(self).interval,
            final(self).polls_made == old(self).polls_made + 1,
            final(self).finished == !(s is Pending),
            status == 428 ==> s is Pending,
            status == 200 ==> (match access_token_in(json_doc_of(body@)) {
                Some(t) => s matches PollStep::Authorized(tok) && tok@ == t,
                None => s matches PollStep::Failed(e) && e is JsonParsingError,
            }),
            status != 200 && status != 428 ==> (s matches PollStep::Failed(e) && e matches
                ApiError::HttpStatus(c, b) && c == status && b is None),
    {
        self.polls_made = self.polls_made + 1;
        if status == 200 {
            self.finished = true;
            match decode_access_token(body) {
                Ok(tok) => PollStep::Authorized(tok),
                Err(e) => PollStep::Failed(e),
            }
        } else if status == 428 {
            PollStep::Pending
        } else {
            self.finished = true;
            PollStep::Failed(ApiError::HttpStatus(status, None))
        }
    }
}

/// The wait before poll `k` (zero-based): the server's interval before the
/// first poll, one second more between consecutive polls.
pub open spec fn spec_poll_delay(interval: u64, k: nat) -> int {
    if k == 0 {
        interval as int
    } else {
        interval + 1
    }
}

/// The instant of poll `k`, in seconds since verification start: the sum of
/// every wait the poller asked for up to it.
pub open spec fn poll_instant(interval: u64, k: nat) -> int
    decreases k,
{
    if k == 0 {
        spec_poll_delay(interval, 0)
    } else {
        poll_instant(interval, (k - 1) as nat) + spec_poll_delay(interval, k)
    }
}

/// The first poll waits out the server's interval, and consecutive polls are
/// spaced exactly `interval + 1` seconds apart — never closer.
pub proof fn lemma_poll_spacing(interval: u64, k: nat)
    ensures
        poll_instant(interval, 0) == interval,
        poll_instant(interval, k + 1) - poll_instant(interval, k) == interval + 1,
{
}

/// How many polls the poller makes against an endpoint that answers
/// `statuses` in order: it keeps polling through pending (428) answers and
/// stops at the first decisive one.
pub open spec fn polls_performed(statuses: Seq<u16>) -> int
    decreases statuses.len(),
{
    if statuses.len() == 0 {
        0
    } else if statuses[0] != 428 {
        1
    } else {
        1 + polls_performed(statuses.drop_first())
    }
}

/// An endpoint that answers pending (428) to the first `n` polls and success
/// (200) on the next is polled exactly `n + 1` times: the success response is
/// the final poll, and `Poller::on_response` returns the token it carries.
pub proof fn lemma_pending_then_success(statuses: Seq<u16>, n: int)
    requires
        0 <= n < statuses.len(),
        forall|i: int| 0 <= i < n ==> statuses[i] == 428,
        statuses[n] == 200,
    ensures
        polls_performed(statuses) == n + 1,
    decreases n,
{
    if n > 0 {
        assert forall|i: int| 0 <= i < n - 1 implies statuses.drop_first()[i] == 428 by {
            assert(statuses[i + 1] == 428);
        }
        assert(statuses.drop_first()[n - 1] == 200);
        lemma_pending_then_success(statuses.drop_first(), n - 1);
    }
}

/// An endpoint that answers a decisive failure (anything other than pending,
/// such as 400) on the first poll is polled exactly once: the flow fails
/// immediately, with no second poll.
pub proof fn lemma_immediate_failure(statuses: Seq<u16>)
    requires
        statuses.len() >= 1,
        statuses[0] != 428,
    ensures
        polls_performed(statuses) == 1,
{
}

} // verus!
