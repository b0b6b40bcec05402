//! API error values, the mapping of error responses, the wall clock, and the
//! decisions of the authenticated request / token-refresh cycle.

use vstd::prelude::*;
use crate::api::types::{ApiErrorEnvelope, TokenBundle, TokenResponse};
use crate::text::{decimal, push_decimal};

verus! {

#[verifier::external_type_specification]
#[verifier::external_body]
pub struct ExSystemTime(std::time::SystemTime);

#[verifier::external_type_specification]
#[verifier::external_body]
pub struct ExSystemTimeError(std::time::SystemTimeError);

/// Reads the system clock (std `SystemTime::now`). Nothing is promised of the reading.
#[verifier::external_body]
fn system_time_now() -> std::time::SystemTime {
    std::time::SystemTime::now()
}

/// std `SystemTime::duration_since(UNIX_EPOCH)`: fails when the reading lies
/// before the epoch. Nothing is promised of the duration.
#[verifier::external_body]
fn duration_since_unix_epoch(t: &std::time::SystemTime) -> Result<
    std::time::Duration,
    std::time::SystemTimeError,
> {
    t.duration_since(std::time::UNIX_EPOCH)
}

/// std `Duration::as_secs`: whole seconds of the duration.
#[verifier::external_body]
fn duration_as_secs(d: &std::time::Duration) -> u64 {
    d.as_secs()
}

/// Seconds since the epoch as `chrono_now_secs` reports them: the whole
/// seconds read (as `i64`), or 0 when the clock lies before the epoch.
pub open spec fn secs_from_reading(reading: Option<u64>) -> i64 {
    match reading {
        Some(s) => s as i64,
        None => 0,
    }
}

/// Seconds since the epoch from a clock reading (whole seconds, or `None` for a
/// clock before the epoch): the seconds as `i64`, or 0.
pub fn unix_secs_from(reading: Option<u64>) -> (r: i64)
    ensures
        r == secs_from_reading(reading),
{
    match reading {
        Some(s) => s as i64,
        None => 0,
    }
}

/// Current Unix time in seconds, 0 when the clock reads before the epoch.
pub fn chrono_now_secs() -> (r: i64)
    ensures
        exists|reading: Option<u64>| r == secs_from_reading(reading),
{
    let now = system_time_now();
    let reading = match duration_since_unix_epoch(&now) {
        Ok(d) => Some(duration_as_secs(&d)),
        Err(_) => None,
    };
    unix_secs_from(reading)
}

/// Failure of an API call.
#[derive(Debug)]
pub enum ApiError {
    /// Network / serialization / unexpected failure.
    Transport(String),
    /// API returned a structured error envelope.
    Api { status: u16, code: String, message: String },
    /// Authentication is required (refresh failed or no tokens).
    Unauthenticated,
}

/// The text of an error, as its display shows it.
pub open spec fn api_error_text(e: ApiError) -> Seq<char> {
    match e {
        ApiError::Transport(s) => "transport: "@ + s@,
        ApiError::Api { code, message, .. } => code@ + ": "@ + message@,
        ApiError::Unauthenticated => "unauthenticated"@,
    }
}

impl ApiError {
    /// The error's display text: `transport: …`, `code: message`, or `unauthenticated`.
    pub fn to_string(&self) -> (r: String)
        ensures
            r@ == api_error_text(*self),
    {
        match self {
            ApiError::Transport(s) => {
                let mut r = String::from_str("transport: ");
                r.append(s.as_str());
                r
            },
            ApiError::Api { code, message, .. } => {
                let mut r = code.clone();
                r.append(": ");
                r.append(message.as_str());
                r
            },
            ApiError::Unauthenticated => String::from_str("unauthenticated"),
        }
    }
}

/// The error for a non-success response with HTTP status `status`, given the
/// error envelope its body decoded to (`None` when it did not decode).
pub fn parse_error(status: u16, envelope: Option<ApiErrorEnvelope>) -> (r: ApiError)
    ensures
        r matches ApiError::Api { status: s, code, message } && s == status && match envelope {
            Some(env) => code@ == env.error.code@ && message@ == env.error.message@,
            None => code@ == "UNKNOWN"@ && message@ == "HTTP "@ + decimal(status as nat),
        },
{
    match envelope {
        Some(env) => ApiError::Api { status, code: env.error.code, message: env.error.message },
        None => {
            let mut message = String::from_str("HTTP ");
            push_decimal(&mut message, status as u64);
            ApiError::Api { status, code: String::from_str("UNKNOWN"), message }
        },
    }
}

/// Whether an HTTP status is a success (2xx).
pub open spec fn is_success_status(status: u16) -> bool {
    200 <= status && status <= 299
}

/// HTTP 401: the access token was refused.
pub const UNAUTHORIZED: u16 = 401;

/// Whether a response's body is to be decoded (2xx) rather than turned into an
/// error with `parse_error`.
pub fn response_is_success(status: u16) -> (r: bool)
    ensures
        r == is_success_status(status),
{
    200 <= status && status <= 299
}

/// Longest body excerpt quoted in a decoding error.
pub const BODY_PREVIEW_CHARS: usize = 300;

/// The transport error for a success body that failed to decode: the decoder's
/// message, then the first 300 characters of the body.
pub fn decode_failure(decoder_message: &str, body: &str) -> (r: ApiError)
    ensures
        r matches ApiError::Transport(s) && s@ == "json: "@ + decoder_message@ + " | body: "@
            + body@.take(if BODY_PREVIEW_CHARS < body@.len() { BODY_PREVIEW_CHARS as int } else { body@.len() as int }),
{
    let preview = crate::text::take_chars(body, BODY_PREVIEW_CHARS);
    let mut s = String::from_str("json: ");
    s.append(decoder_message);
    s.append(" | body: ");
    s.append(preview.as_str());
    ApiError::Transport(s)
}

/// What a token refresh has to do, given the tokens held now and the access
/// token that the refused request carried.
pub enum RefreshPlan {
    /// Another task already replaced the access token: just retry.
    AlreadyRefreshed,
    /// No tokens at all: authentication is required.
    Unauthenticated,
    /// Call `/auth/refresh` with this refresh token.
    Refresh(String),
}

/// Chooses the refresh step: retry when the held access token differs from the
/// refused one, fail when nothing is held, else refresh with the held refresh token.
pub fn refresh_plan(current: &Option<TokenBundle>, observed_access: &str) -> (r: RefreshPlan)
    ensures
        match current {
            None => r is Unauthenticated,
            Some(b) => if b.access_token@ != observed_access@ {
                r is AlreadyRefreshed
            } else {
                r matches RefreshPlan::Refresh(t) && t@ == b.refresh_token@
            },
        },
{
    match current {
        None => RefreshPlan::Unauthenticated,
        Some(b) => {
            if !crate::text::str_equals(b.access_token.as_str(), observed_access) {
                RefreshPlan::AlreadyRefreshed
            } else {
                RefreshPlan::Refresh(b.refresh_token.clone())
            }
        },
    }
}

/// The bundle to store for a login or refresh response received at `now`:
/// the tokens as given, expiries `now` plus the lifetimes (wrapping on overflow).
pub fn bundle_from_response(tr: TokenResponse, now: i64) -> (b: TokenBundle)
    ensures
        b.access_token@ == tr.access_token@,
        b.refresh_token@ == tr.refresh_token@,
        b.access_expires_at == now.wrapping_add(tr.access_token_expires_in),
        b.refresh_expires_at == now.wrapping_add(tr.refresh_token_expires_in),
{
    TokenBundle {
        access_token: tr.access_token,
        refresh_token: tr.refresh_token,
        access_expires_at: now.wrapping_add(tr.access_token_expires_in),
        refresh_expires_at: now.wrapping_add(tr.refresh_token_expires_in),
    }
}


/// What an authenticated request does next.
pub enum RequestAction {
    /// Send the request with this bearer token, then report the status with `on_response`.
    Send(String),
    /// The token was refused: refresh it (see `refresh_plan`), then report with `on_refresh`.
    RefreshFor(String),
    /// Decode the last response's body.
    DecodeBody,
    /// Turn the last response into an error with `parse_error`.
    ErrorFromResponse,
    /// Fail with this error.
    Fail(ApiError),
}

/// Where an authenticated request stands.
#[derive(PartialEq, Eq, Structural)]
pub enum RequestPhase {
    /// The first send is out.
    FirstSent,
    /// The first send was refused; a refresh is under way.
    Refreshing,
    /// The retry is out.
    RetrySent,
    /// Nothing more is sent.
    Finished,
}

/// The plain state of a request.
pub struct RequestFlowView {
    pub phase: RequestPhase,
    /// The token of the first send.
    pub token: Seq<char>,
    /// How many times the request has been sent.
    pub sends: nat,
}

/// An authenticated request: one send, and on a `401` one refresh and at most
/// one retry.
pub struct RequestFlow {
    phase: RequestPhase,
    token: String,
    sends: u8,
}

impl View for RequestFlow {
    type V = RequestFlowView;

    closed spec fn view(&self) -> RequestFlowView {
        RequestFlowView { phase: self.phase, token: self.token@, sends: self.sends as nat }
    }
}

impl RequestFlow {
    #[verifier::type_invariant]
    spec fn sends_match_phase(self) -> bool {
        &&& self.sends <= 2
        &&& (self.phase == RequestPhase::FirstSent || self.phase == RequestPhase::Refreshing)
            ==> self.sends == 1
        &&& self.phase == RequestPhase::RetrySent ==> self.sends == 2
    }

    /// Starts a request with the access token held now: send it, or fail with
    /// `Unauthenticated` when there is none.
    pub fn begin(access_token: Option<String>) -> (r: (RequestFlow, RequestAction))
        ensures
            match access_token {
                None => r.1 matches RequestAction::Fail(ApiError::Unauthenticated) && r.0@.phase
                    == RequestPhase::Finished && r.0@.sends == 0,
                Some(t) => r.1 matches RequestAction::Send(s) && s@ == t@ && r.0@.phase
                    == RequestPhase::FirstSent && r.0@.sends == 1 && r.0@.token == t@,
            },
    {
        match access_token {
            None => (
                RequestFlow { phase: RequestPhase::Finished, token: String::new(), sends: 0 },
                RequestAction::Fail(ApiError::Unauthenticated),
            ),
            Some(t) => {
                let send = t.clone();
                (RequestFlow { phase: RequestPhase::FirstSent, token: t, sends: 1 }, RequestAction::Send(send))
            },
        }
    }

    /// Judges the status of the response just received. A `401` to the first
    /// send asks for a refresh; otherwise a 2xx is decoded and anything else
    /// becomes an error.
    pub fn on_response(&mut self, status: u16) -> (r: RequestAction)
        requires
            old(self)@.phase == RequestPhase::FirstSent || old(self)@.phase == RequestPhase::RetrySent,
        ensures
            final(self)@.sends == old(self)@.sends,
            final(self)@.token == old(self)@.token,
            if old(self)@.phase == RequestPhase::FirstSent && status == UNAUTHORIZED {
                r matches RequestAction::RefreshFor(t) && t@ == old(self)@.token && final(self)@.phase
                    == RequestPhase::Refreshing
            } else if is_success_status(status) {
                r is DecodeBody && final(self)@.phase == RequestPhase::Finished
            } else {
                r is ErrorFromResponse && final(self)@.phase == RequestPhase::Finished
            },
    {
        proof {
            use_type_invariant(&*self);
        }
        if self.phase == RequestPhase::FirstSent && status == UNAUTHORIZED {
            self.phase = RequestPhase::Refreshing;
            RequestAction::RefreshFor(self.token.clone())
        } else if response_is_success(status) {
            self.phase = RequestPhase::Finished;
            RequestAction::DecodeBody
        } else {
            self.phase = RequestPhase::Finished;
            RequestAction::ErrorFromResponse
        }
    }

    /// Continues after the refresh, given its outcome and the access token held
    /// afterwards: a refresh error is returned; a successful refresh resends with
    /// the new token (or fails with `Unauthenticated` if none is held); a refresh
    /// that asks for no retry leaves the refused response to become an error.
    pub fn on_refresh(&mut self, outcome: Result<bool, ApiError>, access_token: Option<String>) -> (r: RequestAction)
        requires
            old(self)@.phase == RequestPhase::Refreshing,
        ensures
            final(self)@.token == old(self)@.token,
            match outcome {
                Err(e) => r == RequestAction::Fail(e) && final(self)@.phase == RequestPhase::Finished
                    && final(self)@.sends == old(self)@.sends,
                Ok(true) => match access_token {
                    None => r matches RequestAction::Fail(ApiError::Unauthenticated)
                        && final(self)@.phase == RequestPhase::Finished && final(self)@.sends
                        == old(self)@.sends,
                    Some(t) => r matches RequestAction::Send(s) && s@ == t@ && final(self)@.phase
                        == RequestPhase::RetrySent && final(self)@.sends == old(self)@.sends + 1,
                },
                Ok(false) => r is ErrorFromResponse && final(self)@.phase == RequestPhase::Finished
                    && final(self)@.sends == old(self)@.sends,
            },
            final(self)@.sends <= 2,
    {
        proof {
            use_type_invariant(&*self);
        }
        match outcome {
            Err(e) => {
                self.phase = RequestPhase::Finished;
                RequestAction::Fail(e)
            },
            Ok(true) => match access_token {
                None => {
                    self.phase = RequestPhase::Finished;
                    RequestAction::Fail(ApiError::Unauthenticated)
                },
                Some(t) => {
                    let token = self.token.clone();
                    *self = RequestFlow { phase: RequestPhase::RetrySent, token, sends: 2 };
                    RequestAction::Send(t)
                },
            },
            Ok(false) => {
                self.phase = RequestPhase::Finished;
                RequestAction::ErrorFromResponse
            },
        }
    }

    /// How many times the request has been sent (never more than two).
    pub fn sends(&self) -> (r: u8)
        ensures
            r == self@.sends,
            r <= 2,
    {
        proof {
            use_type_invariant(self);
        }
        self.sends
    }
}


/// The bundle to store after a successful refresh answer, given how its body
/// decoded (the decoder's message on failure) and the time it arrived.
pub fn refreshed_bundle(decoded: Result<TokenResponse, String>, now: i64) -> (r: Result<TokenBundle, ApiError>)
    ensures
        match decoded {
            Err(m) => r matches Err(ApiError::Transport(s)) && s@ == "refresh json: "@ + m@,
            Ok(tr) => r matches Ok(b) && b.access_token@ == tr.access_token@ && b.refresh_token@
                == tr.refresh_token@ && b.access_expires_at == now.wrapping_add(tr.access_token_expires_in)
                && b.refresh_expires_at == now.wrapping_add(tr.refresh_token_expires_in),
        },
{
    match decoded {
        Err(m) => {
            let mut s = String::from_str("refresh json: ");
            s.append(m.as_str());
            Err(ApiError::Transport(s))
        },
        Ok(tr) => Ok(bundle_from_response(tr, now)),
    }
}

} // verus!

verus! {

/// What follows the answer to `POST /auth/refresh`.
pub enum RefreshAnswer {
    /// The refresh was refused: the token chain is dead. Tokens are wiped (the
    /// settings must be written back when `blob_wiped`) and the request fails
    /// with `error`, which is `Unauthenticated`.
    Refused { error: ApiError, blob_wiped: bool },
    /// A 2xx answer: decode the new tokens (see `refreshed_bundle`).
    DecodeTokens,
}

/// Judges the answer to `/auth/refresh`: any non-2xx status wipes the cached
/// tokens and the encrypted blob field, and yields `Unauthenticated`; a 2xx
/// status changes nothing and leads to decoding.
pub fn judge_refresh_answer(
    status: u16,
    store: &mut crate::api::tokens::TokenStore,
    encrypted_tokens: &mut Option<String>,
) -> (r: RefreshAnswer)
    ensures
        !is_success_status(status) ==> {
            &&& r matches RefreshAnswer::Refused { error: ApiError::Unauthenticated, blob_wiped }
                && blob_wiped == (*old(encrypted_tokens) is Some)
            &&& final(store)@ is None
            &&& *final(encrypted_tokens) is None
        },
        is_success_status(status) ==> {
            &&& r is DecodeTokens
            &&& final(store)@ == old(store)@
            &&& *final(encrypted_tokens) == *old(encrypted_tokens)
        },
{
    if response_is_success(status) {
        RefreshAnswer::DecodeTokens
    } else {
        let blob_wiped = store.clear(encrypted_tokens);
        RefreshAnswer::Refused { error: ApiError::Unauthenticated, blob_wiped }
    }
}

} // verus!
