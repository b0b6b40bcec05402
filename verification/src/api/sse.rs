//! Reconnection policy of the persistent event stream: exponential backoff
//! from 1 s doubling up to 30 s, reset after a connection that stayed up 60 s,
//! and one authentication re-check when the stream is refused with `401`.
//!
//! The stream, the timers and the events sent to the frontend are driven
//! around a `SseSession`: each step here says what happens next.

use vstd::prelude::*;
use vstd::arithmetic::power2::pow2;
use crate::api::client::UNAUTHORIZED;
use crate::api::API_BASE_URL;
use crate::json::{json_parse_value, json_string, json_string_value, json_text_value};

verus! {

/// Longest pause between reconnections, in seconds.
pub const MAX_BACKOFF_SECS: u64 = 30;

/// A connection that lasted this long (seconds) resets the backoff.
pub const STABLE_RESET_SECS: u64 = 60;

/// The pause that follows a pause of `b` seconds.
pub open spec fn next_backoff(b: u64) -> u64 {
    if 2 * b < MAX_BACKOFF_SECS {
        (2 * b) as u64
    } else {
        MAX_BACKOFF_SECS
    }
}

/// The pause before the `n`-th reconnection of a run of failed connections.
pub open spec fn backoff_after(n: nat) -> u64
    decreases n,
{
    if n == 0 {
        1
    } else {
        next_backoff(backoff_after((n - 1) as nat))
    }
}

/// Pauses double from 1 s and are capped at 30 s: the `n`-th one is `min(2^n, 30)`.
pub proof fn backoff_schedule(n: nat)
    ensures
        backoff_after(n) == if pow2(n) < MAX_BACKOFF_SECS { pow2(n) } else { MAX_BACKOFF_SECS as nat },
        1 <= backoff_after(n) <= MAX_BACKOFF_SECS,
    decreases n,
{
    if n == 0 {
        vstd::arithmetic::power2::lemma2_to64();
    } else {
        backoff_schedule((n - 1) as nat);
        vstd::arithmetic::power2::lemma_pow2_unfold(n);
    }
}

/// One item read from the event stream.
pub enum StreamItem {
    /// A named event with its data.
    Event,
    /// A comment line (keep-alive).
    Comment,
    /// The connection was established.
    Connected,
    /// The server answered with an unexpected HTTP status.
    UnexpectedResponse(u16),
    /// Any other stream failure.
    Failure,
}

/// What to do with a stream item.
pub enum ItemAction {
    /// Forward the event to the frontend.
    EmitEvent,
    /// Report the status `connected`.
    EmitConnected,
    /// Nothing to report.
    Ignore,
    /// Stop reading this connection.
    EndStream,
}

/// The data of an event as forwarded to the frontend: the JSON it holds, or
/// the raw text as a JSON string when it is not JSON.
pub fn event_data(data: &str) -> (r: serde_json::Value)
    ensures
        r == match json_text_value(data@) {
            Some(v) => v,
            None => json_string(data@),
        },
{
    match json_parse_value(data) {
        Some(v) => v,
        None => json_string_value(data.to_owned()),
    }
}

/// How to open the next connection.
pub enum ConnectPlan {
    /// No tokens: ask the frontend to authenticate, and stop.
    AuthRequired,
    /// Open the stream at `url` with this `Authorization` header value.
    Open { url: String, authorization: String },
}

/// What follows the end of a connection (after reporting `disconnected`).
pub enum AfterStream {
    /// The stream was refused with 401: issue one authenticated request to
    /// refresh the token, then call `on_auth_recheck`.
    RecheckAuth,
    /// Sleep this many seconds, then reconnect.
    Sleep(u64),
}

/// The plain state of a session.
pub struct SessionView {
    pub backoff: u64,
    pub got_anything: bool,
    pub auth_failed: bool,
}

/// State of the stream task for one instance.
pub struct SseSession {
    backoff: u64,
    got_anything: bool,
    auth_failed: bool,
}

impl View for SseSession {
    type V = SessionView;

    closed spec fn view(&self) -> SessionView {
        SessionView {
            backoff: self.backoff,
            got_anything: self.got_anything,
            auth_failed: self.auth_failed,
        }
    }
}

/// The events URL of an instance.
pub open spec fn spec_events_url(instance_id: Seq<char>) -> Seq<char> {
    API_BASE_URL@ + "/api/overlay/instances/"@ + instance_id + "/events"@
}

/// The events URL holds the whole instance id, between the fixed
/// `<base>/api/overlay/instances/` prefix and the `/events` suffix, so different
/// instances get different URLs.
pub proof fn events_url_holds_whole_instance_id(a: Seq<char>, b: Seq<char>)
    ensures
        ({
            let p = API_BASE_URL@ + "/api/overlay/instances/"@;
            &&& spec_events_url(a).len() == p.len() + a.len() + 7
            &&& spec_events_url(a).take(p.len() as int) == p
            &&& spec_events_url(a).subrange(p.len() as int, (p.len() + a.len()) as int) == a
            &&& spec_events_url(a).skip((p.len() + a.len()) as int) == "/events"@
        }),
        spec_events_url(a) == spec_events_url(b) ==> a == b,
{
    reveal_strlit("/events");
    let p = API_BASE_URL@ + "/api/overlay/instances/"@;
    let ua = spec_events_url(a);
    let ub = spec_events_url(b);
    assert(ua =~= p + a + "/events"@);
    assert(ub =~= p + b + "/events"@);
    assert(ua.take(p.len() as int) =~= p);
    assert(ua.subrange(p.len() as int, (p.len() + a.len()) as int) =~= a);
    assert(ua.skip((p.len() + a.len()) as int) =~= "/events"@);
    if ua == ub {
        assert(a.len() == b.len());
        assert(ub.subrange(p.len() as int, (p.len() + b.len()) as int) =~= b);
    }
}

impl SseSession {
    #[verifier::type_invariant]
    spec fn backoff_in_range(self) -> bool {
        1 <= self.backoff <= MAX_BACKOFF_SECS
    }

    /// A fresh session: next pause 1 s.
    pub fn new() -> (r: SseSession)
        ensures
            r@.backoff == 1,
            !r@.got_anything,
            !r@.auth_failed,
    {
        SseSession { backoff: 1, got_anything: false, auth_failed: false }
    }

    /// The pause (seconds) that the next failed connection will wait: always 1..=30.
    pub fn backoff(&self) -> (r: u64)
        ensures
            r == self@.backoff,
            1 <= r <= MAX_BACKOFF_SECS,
    {
        proof {
            use_type_invariant(self);
        }
        self.backoff
    }

    /// Plans a connection with the access token held now (if any), and starts
    /// a fresh connection record.
    pub fn connect_plan(&mut self, access_token: Option<String>, instance_id: &str) -> (r: ConnectPlan)
        ensures
            final(self)@.backoff == old(self)@.backoff,
            !final(self)@.got_anything,
            !final(self)@.auth_failed,
            match access_token {
                None => r is AuthRequired,
                Some(t) => r matches ConnectPlan::Open { url, authorization } && url@
                    == spec_events_url(instance_id@) && url@ == API_BASE_URL@ + "/api/overlay/instances/"@
                    + instance_id@ + "/events"@ && authorization@ == "Bearer "@ + t@,
            },
    {
        proof {
            use_type_invariant(&*self);
        }
        self.got_anything = false;
        self.auth_failed = false;
        match access_token {
            None => ConnectPlan::AuthRequired,
            Some(t) => {
                let mut url = String::from_str(API_BASE_URL);
                url.append("/api/overlay/instances/");
                url.append(instance_id);
                url.append("/events");
                let mut authorization = String::from_str("Bearer ");
                authorization.append(t.as_str());
                ConnectPlan::Open { url, authorization }
            },
        }
    }

    /// Handles one stream item, `connected_secs` seconds after the connection
    /// was opened. Events and comments mark the connection as alive; an event on
    /// a connection up for 60 s resets the backoff; a 401 marks the token refused.
    pub fn on_item(&mut self, item: StreamItem, connected_secs: u64) -> (r: ItemAction)
        ensures
            match item {
                StreamItem::Event => {
                    &&& r is EmitEvent
                    &&& final(self)@.got_anything
                    &&& final(self)@.auth_failed == old(self)@.auth_failed
                    &&& final(self)@.backoff == if connected_secs >= STABLE_RESET_SECS {
                        1
                    } else {
                        old(self)@.backoff
                    }
                },
                StreamItem::Comment => {
                    &&& r is Ignore
                    &&& final(self)@ == SessionView { got_anything: true, ..old(self)@ }
                },
                StreamItem::Connected => r is EmitConnected && final(self)@ == old(self)@,
                StreamItem::UnexpectedResponse(status) => {
                    &&& r is EndStream
                    &&& final(self)@ == SessionView {
                        auth_failed: old(self)@.auth_failed || status == UNAUTHORIZED,
                        ..old(self)@
                    }
                },
                StreamItem::Failure => r is EndStream && final(self)@ == old(self)@,
            },
    {
        proof {
            use_type_invariant(&*self);
        }
        match item {
            StreamItem::Event => {
                self.got_anything = true;
                if connected_secs >= STABLE_RESET_SECS {
                    self.backoff = 1;
                }
                ItemAction::EmitEvent
            },
            StreamItem::Comment => {
                self.got_anything = true;
                ItemAction::Ignore
            },
            StreamItem::Connected => ItemAction::EmitConnected,
            StreamItem::UnexpectedResponse(status) => {
                if status == UNAUTHORIZED {
                    self.auth_failed = true;
                }
                ItemAction::EndStream
            },
            StreamItem::Failure => ItemAction::EndStream,
        }
    }

    /// Decides what follows the end of a connection that lasted
    /// `connected_secs` seconds: a connection that delivered something and stayed
    /// up 60 s resets the backoff; a refused token asks for a re-check; otherwise
    /// sleep for the current backoff, which then doubles up to 30 s.
    pub fn on_stream_end(&mut self, connected_secs: u64) -> (r: AfterStream)
        ensures
            ({
                let b = if old(self)@.got_anything && connected_secs >= STABLE_RESET_SECS {
                    1u64
                } else {
                    old(self)@.backoff
                };
                if old(self)@.auth_failed {
                    r is RecheckAuth && final(self)@.backoff == b
                } else {
                    r == AfterStream::Sleep(b) && final(self)@.backoff == next_backoff(b)
                }
            }),
            r matches AfterStream::Sleep(d) ==> 1 <= d <= MAX_BACKOFF_SECS,
            1 <= final(self)@.backoff <= MAX_BACKOFF_SECS,
            final(self)@.got_anything == old(self)@.got_anything,
            final(self)@.auth_failed == old(self)@.auth_failed,
    {
        proof {
            use_type_invariant(&*self);
        }
        if self.got_anything && connected_secs >= STABLE_RESET_SECS {
            self.backoff = 1;
        }
        if self.auth_failed {
            AfterStream::RecheckAuth
        } else {
            let delay = self.backoff;
            self.backoff = if 2 * delay < MAX_BACKOFF_SECS {
                2 * delay
            } else {
                MAX_BACKOFF_SECS
            };
            AfterStream::Sleep(delay)
        }
    }

    /// After the re-check request: on success reconnect at once with the backoff
    /// reset to 1 s (returns `true`); on failure the frontend must authenticate
    /// and the task stops (returns `false`).
    pub fn on_auth_recheck(&mut self, ok: bool) -> (reconnect: bool)
        ensures
            reconnect == ok,
            ok ==> final(self)@.backoff == 1,
            !ok ==> final(self)@.backoff == old(self)@.backoff,
            final(self)@.got_anything == old(self)@.got_anything,
            final(self)@.auth_failed == old(self)@.auth_failed,
    {
        proof {
            use_type_invariant(&*self);
        }
        if ok {
            self.backoff = 1;
        }
        ok
    }
}

} // verus!
