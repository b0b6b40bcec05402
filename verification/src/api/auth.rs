//! Decisions of the authentication flows: parsing the token fragment that the
//! loopback page posts back, building the OAuth start request, judging its
//! answer, routing loopback requests, and wording API errors for the user.

use vstd::prelude::*;
use vstd::string::StringSliceAdditionalSpecFns;
pub use crate::text::hex_encode;
use crate::api::client::{api_error_text, chrono_now_secs, secs_from_reading, ApiError};
use crate::api::crypto::{random_bytes, string_result_view};
use crate::api::form::{
    form_serialize, lemma_form_serialize_has_no_delimiters, spec_url_decode, url_decode, url_encode,
};
use crate::api::types::{AuthStatus, OverlayUser, TokenBundle, TokenBundleView};
use crate::api::API_BASE_URL;
use crate::text::{
    chars_of, decimal, digits_value, find_char, is_decimal_digit, lemma_decimal_digits, find_from, lemma_find_from_bounds, lemma_split_on_concat,
    lemma_split_on_nonempty, lemma_split_on_without_separator,
    lower_hex, opt_chars, parse_i64, push_decimal, range_eq_str, skip_char, skip_from, split_on,
    std_parse_i64, str_equals, string_of,
};

verus! {

/// Default access-token lifetime (seconds) when the fragment gives none.
pub const DEFAULT_ACCESS_EXPIRES_IN: i64 = 900;

/// Default refresh-token lifetime (seconds) when the fragment gives none.
pub const DEFAULT_REFRESH_EXPIRES_IN: i64 = 2_592_000;

/// What a token fragment says, field by field (a later pair overrides an earlier one).
pub struct FragmentFields {
    pub access: Option<Seq<char>>,
    pub refresh: Option<Seq<char>>,
    pub access_exp: i64,
    pub refresh_exp: i64,
    pub state: Option<Seq<char>>,
}

/// The fields before any pair is read.
pub open spec fn initial_fields() -> FragmentFields {
    FragmentFields {
        access: None,
        refresh: None,
        access_exp: DEFAULT_ACCESS_EXPIRES_IN,
        refresh_exp: DEFAULT_REFRESH_EXPIRES_IN,
        state: None,
    }
}

/// The name of a `name=value` pair: everything before the first `=`.
pub open spec fn pair_name(p: Seq<char>) -> Seq<char> {
    p.subrange(0, find_from(p, '=', 0))
}

/// The raw value of a pair: everything after the first `=`, empty when there is none.
pub open spec fn pair_raw_value(p: Seq<char>) -> Seq<char> {
    let e = find_from(p, '=', 0);
    if e < p.len() {
        p.subrange(e + 1, p.len() as int)
    } else {
        Seq::empty()
    }
}

/// A decoded lifetime value, or the default when it does not parse as `i64`.
pub open spec fn lifetime_or(v: Seq<char>, default: i64) -> i64 {
    match std_parse_i64(v) {
        Some(x) => x,
        None => default,
    }
}

/// The effect of one pair on the fields read so far; unknown names change nothing.
pub open spec fn apply_pair(f: FragmentFields, p: Seq<char>) -> FragmentFields {
    let name = pair_name(p);
    let v = spec_url_decode(pair_raw_value(p));
    if name == "access_token"@ {
        FragmentFields { access: Some(v), ..f }
    } else if name == "refresh_token"@ {
        FragmentFields { refresh: Some(v), ..f }
    } else if name == "access_token_expires_in"@ {
        FragmentFields { access_exp: lifetime_or(v, DEFAULT_ACCESS_EXPIRES_IN), ..f }
    } else if name == "refresh_token_expires_in"@ {
        FragmentFields { refresh_exp: lifetime_or(v, DEFAULT_REFRESH_EXPIRES_IN), ..f }
    } else if name == "state"@ {
        FragmentFields { state: Some(v), ..f }
    } else {
        f
    }
}

/// The fields after reading the pairs in order.
pub open spec fn fold_pairs(pairs: Seq<Seq<char>>) -> FragmentFields
    decreases pairs.len(),
{
    if pairs.len() == 0 {
        initial_fields()
    } else {
        apply_pair(fold_pairs(pairs.drop_last()), pairs.last())
    }
}

/// The fragment without its leading `#` characters.
pub open spec fn fragment_body(fragment: Seq<char>) -> Seq<char> {
    fragment.subrange(skip_from(fragment, '#', 0), fragment.len() as int)
}

/// What a fragment says: its body split on `&`, read pair by pair.
pub open spec fn fragment_fields(fragment: Seq<char>) -> FragmentFields {
    fold_pairs(split_on(fragment_body(fragment), '&'))
}

/// The outcome of parsing `fragment` against `expected_state` at time `now`:
/// the state must be present and equal to the expected one, both tokens must be
/// present, and each expiry is `now` plus its lifetime (wrapping on overflow).
pub open spec fn spec_parse_fragment_at(fragment: Seq<char>, expected_state: Seq<char>, now: i64) -> Result<
    TokenBundleView,
    Seq<char>,
> {
    let f = fragment_fields(fragment);
    match f.state {
        None => Err("missing state"@),
        Some(st) => if st != expected_state {
            Err("state mismatch"@)
        } else {
            match f.access {
                None => Err("missing access_token"@),
                Some(a) => match f.refresh {
                    None => Err("missing refresh_token"@),
                    Some(rt) => Ok(
                        TokenBundleView {
                            access_token: a,
                            refresh_token: rt,
                            access_expires_at: now.wrapping_add(f.access_exp),
                            refresh_expires_at: now.wrapping_add(f.refresh_exp),
                        },
                    ),
                },
            }
        },
    }
}

/// The plain value of a bundle-or-message result.
pub open spec fn bundle_result_view(r: Result<TokenBundle, String>) -> Result<TokenBundleView, Seq<char>> {
    match r {
        Ok(b) => Ok(b@),
        Err(e) => Err(e@),
    }
}

/// The fields of a fragment as they are being read.
struct FragmentScan {
    access: Option<String>,
    refresh: Option<String>,
    access_exp: i64,
    refresh_exp: i64,
    state: Option<String>,
}

impl View for FragmentScan {
    type V = FragmentFields;

    closed spec fn view(&self) -> FragmentFields {
        FragmentFields {
            access: opt_chars(self.access),
            refresh: opt_chars(self.refresh),
            access_exp: self.access_exp,
            refresh_exp: self.refresh_exp,
            state: opt_chars(self.state),
        }
    }
}

impl FragmentScan {
    fn new() -> (r: FragmentScan)
        ensures
            r@ == initial_fields(),
    {
        FragmentScan {
            access: None,
            refresh: None,
            access_exp: DEFAULT_ACCESS_EXPIRES_IN,
            refresh_exp: DEFAULT_REFRESH_EXPIRES_IN,
            state: None,
        }
    }

    /// Reads the pair `v[from..to]`.
    fn apply(&mut self, v: &Vec<char>, from: usize, to: usize)
        requires
            from <= to <= v@.len(),
        ensures
            final(self)@ == apply_pair(old(self)@, v@.subrange(from as int, to as int)),
    {
        let ghost p = v@.subrange(from as int, to as int);
        let e = find_char(v, '=', from, to);
        proof {
            lemma_find_from_bounds(p, '=', 0);
            assert(p.subrange(0, e - from) == v@.subrange(from as int, e as int));
        }
        let raw = if e < to {
            assert(p.subrange(e - from + 1, p.len() as int) == v@.subrange(e + 1, to as int));
            string_of(v, e + 1, to)
        } else {
            String::new()
        };
        assert(raw@ == pair_raw_value(p));
        let value = url_decode(raw.as_str());
        if range_eq_str(v, from, e, "access_token") {
            self.access = Some(value);
        } else if range_eq_str(v, from, e, "refresh_token") {
            self.refresh = Some(value);
        } else if range_eq_str(v, from, e, "access_token_expires_in") {
            self.access_exp = match parse_i64(value.as_str()) {
                Some(x) => x,
                None => DEFAULT_ACCESS_EXPIRES_IN,
            };
        } else if range_eq_str(v, from, e, "refresh_token_expires_in") {
            self.refresh_exp = match parse_i64(value.as_str()) {
                Some(x) => x,
                None => DEFAULT_REFRESH_EXPIRES_IN,
            };
        } else if range_eq_str(v, from, e, "state") {
            self.state = Some(value);
        }
    }
}

/// Reads all the pairs of a fragment.
fn scan_fragment(fragment: &str) -> (r: FragmentScan)
    ensures
        r@ == fragment_fields(fragment@),
{
    let v = chars_of(fragment);
    let n = v.len();
    let start = skip_char(&v, '#', 0);
    let ghost body = fragment_body(fragment@);
    let mut scan = FragmentScan::new();
    let mut piece_start = start;
    let mut i = start;
    proof {
        assert(v@.subrange(start as int, start as int) =~= Seq::<char>::empty());
    }
    while i < n
        invariant
            n == v@.len(),
            v@ == fragment@,
            start <= piece_start <= i <= n,
            split_on(v@.subrange(start as int, i as int), '&').len() >= 1,
            split_on(v@.subrange(start as int, i as int), '&').last() == v@.subrange(
                piece_start as int,
                i as int,
            ),
            scan@ == fold_pairs(split_on(v@.subrange(start as int, i as int), '&').drop_last()),
        decreases n - i,
    {
        let ghost prefix = v@.subrange(start as int, i as int);
        let ghost next = v@.subrange(start as int, i + 1);
        proof {
            assert(next.drop_last() =~= prefix);
            assert(next.last() == v@[i as int]);
            lemma_split_on_nonempty(prefix, '&');
        }
        if v[i] == '&' {
            scan.apply(&v, piece_start, i);
            proof {
                let sp = split_on(prefix, '&');
                assert(split_on(next, '&') == sp.push(Seq::empty()));
                assert(split_on(next, '&').drop_last() =~= sp);
                assert(sp =~= sp.drop_last().push(sp.last()));
                assert(v@.subrange(i + 1, i + 1) =~= Seq::<char>::empty());
            }
            piece_start = i + 1;
        } else {
            proof {
                let sp = split_on(prefix, '&');
                let sn = sp.update(sp.len() - 1, sp.last().push(v@[i as int]));
                assert(split_on(next, '&') == sn);
                assert(sn.drop_last() =~= sp.drop_last());
                assert(v@.subrange(piece_start as int, i + 1) =~= v@.subrange(
                    piece_start as int,
                    i as int,
                ).push(v@[i as int]));
            }
        }
        i = i + 1;
    }
    scan.apply(&v, piece_start, n);
    proof {
        let sp = split_on(v@.subrange(start as int, n as int), '&');
        assert(sp =~= sp.drop_last().push(sp.last()));
        assert(v@.subrange(start as int, n as int) == body);
    }
    scan
}

/// Parses the token fragment posted back by the loopback page, at time `now`.
pub fn parse_fragment_at(fragment: &str, expected_state: &str, now: i64) -> (r: Result<
    TokenBundle,
    String,
>)
    ensures
        bundle_result_view(r) == spec_parse_fragment_at(fragment@, expected_state@, now),
{
    let scan = scan_fragment(fragment);
    let state = match scan.state {
        None => return Err(String::from_str("missing state")),
        Some(s) => s,
    };
    if state != expected_state.to_owned() {
        return Err(String::from_str("state mismatch"));
    }
    let access_token = match scan.access {
        None => return Err(String::from_str("missing access_token")),
        Some(a) => a,
    };
    let refresh_token = match scan.refresh {
        None => return Err(String::from_str("missing refresh_token")),
        Some(t) => t,
    };
    Ok(
        TokenBundle {
            access_token,
            refresh_token,
            access_expires_at: now.wrapping_add(scan.access_exp),
            refresh_expires_at: now.wrapping_add(scan.refresh_exp),
        },
    )
}

/// Parses the token fragment posted back by the loopback page (the body of
/// `POST /finish`, the URL fragment without its `#`) and checks its `state`,
/// stamping expiries from the current clock.
pub fn parse_fragment(fragment: &str, expected_state: &str) -> (r: Result<TokenBundle, String>)
    ensures
        exists|reading: Option<u64>|
            bundle_result_view(r) == spec_parse_fragment_at(
                fragment@,
                expected_state@,
                #[trigger] secs_from_reading(reading),
            ),
{
    let now = chrono_now_secs();
    parse_fragment_at(fragment, expected_state, now)
}


/// HTTP status of the redirect that `/auth/start` must answer with.
pub const STATUS_FOUND: u16 = 302;

/// The loopback redirect URI for a port: `http://127.0.0.1:<port>/callback`.
pub open spec fn spec_redirect_uri(port: u16) -> Seq<char> {
    "http://127.0.0.1:"@ + decimal(port as nat) + "/callback"@
}

/// The redirect URI is `http://127.0.0.1:`, then a non-empty run of ASCII
/// digits whose value is the port (its unsigned decimal form), then `/callback`.
pub proof fn redirect_uri_carries_port(port: u16)
    ensures
        ({
            let u = spec_redirect_uri(port);
            let digits = u.subrange(17, u.len() - 9);
            &&& u.len() >= 27
            &&& u.take(17) == "http://127.0.0.1:"@
            &&& u.skip(u.len() - 9) == "/callback"@
            &&& u == "http://127.0.0.1:"@ + digits + "/callback"@
            &&& forall|i: int| 0 <= i < digits.len() ==> is_decimal_digit(#[trigger] digits[i])
            &&& digits_value(digits) == port as int
        }),
{
    reveal_strlit("http://127.0.0.1:");
    reveal_strlit("/callback");
    lemma_decimal_digits(port as nat);
    let d = decimal(port as nat);
    let u = spec_redirect_uri(port);
    assert(u.len() == 17 + d.len() + 9);
    assert(u.subrange(17, u.len() - 9) =~= d);
    assert(u.take(17) =~= "http://127.0.0.1:"@);
    assert(u.skip(u.len() - 9) =~= "/callback"@);
}

/// Builds the loopback redirect URI for the port the listener got.
pub fn redirect_uri(port: u16) -> (r: String)
    ensures
        r@ == spec_redirect_uri(port),
        r@ == "http://127.0.0.1:"@ + decimal(port as nat) + "/callback"@,
{
    let mut r = String::from_str("http://127.0.0.1:");
    push_decimal(&mut r, port as u64);
    r.append("/callback");
    r
}

/// The `/auth/start` URL carrying the form-encoded redirect URI and client state.
pub open spec fn spec_auth_start_url(redirect_uri: &str, client_state: &str) -> Seq<char> {
    API_BASE_URL@ + "/api/overlay/auth/start?redirect_uri="@ + form_serialize(redirect_uri.spec_bytes())
        + "&state="@ + form_serialize(client_state.spec_bytes())
}

/// The `/auth/start` URL carries exactly two query parameters, `redirect_uri`
/// and `state`, whatever the two values hold: their encodings contain no `&`.
pub proof fn auth_start_query_has_two_parameters(redirect_uri: &str, client_state: &str)
    ensures
        ({
            let ru = form_serialize(redirect_uri.spec_bytes());
            let st = form_serialize(client_state.spec_bytes());
            let query = "redirect_uri="@ + ru + "&state="@ + st;
            &&& spec_auth_start_url(redirect_uri, client_state) == API_BASE_URL@ + "/api/overlay/auth/start?"@ + query
            &&& split_on(query, '&') == seq!["redirect_uri="@ + ru, "state="@ + st]
        }),
{
    let ru = form_serialize(redirect_uri.spec_bytes());
    let st = form_serialize(client_state.spec_bytes());
    lemma_form_serialize_has_no_delimiters(redirect_uri.spec_bytes());
    lemma_form_serialize_has_no_delimiters(client_state.spec_bytes());
    reveal_strlit("redirect_uri=");
    reveal_strlit("&state=");
    reveal_strlit("state=");
    reveal_strlit("?redirect_uri=");
    reveal_strlit("/api/overlay/auth/start?redirect_uri=");
    reveal_strlit("/api/overlay/auth/start?");
    let first = "redirect_uri="@ + ru;
    let second = "state="@ + st;
    assert("&state="@ =~= seq!['&'] + "state="@);
    assert("redirect_uri="@ + ru + "&state="@ + st =~= first.push('&') + second);
    assert forall|i: int| 0 <= i < first.len() implies first[i] != '&' by {
        if i >= 13 {
            assert(first[i] == ru[i - 13]);
        }
    }
    assert forall|i: int| 0 <= i < second.len() implies second[i] != '&' by {
        if i >= 6 {
            assert(second[i] == st[i - 6]);
        }
    }
    lemma_split_on_without_separator(first, '&');
    lemma_split_on_without_separator(second, '&');
    lemma_split_on_concat(first, second, '&');
    assert(seq![first] + seq![second] =~= seq![first, second]);
    assert("/api/overlay/auth/start?redirect_uri="@ =~= "/api/overlay/auth/start?"@ + "redirect_uri="@);
}

/// Builds the `/auth/start` URL.
pub fn auth_start_url(redirect_uri: &str, client_state: &str) -> (r: String)
    ensures
        r@ == spec_auth_start_url(redirect_uri, client_state),
{
    let mut r = String::from_str(API_BASE_URL);
    r.append("/api/overlay/auth/start?redirect_uri=");
    let ru = url_encode(redirect_uri);
    r.append(ru.as_str());
    r.append("&state=");
    let st = url_encode(client_state);
    r.append(st.as_str());
    r
}

/// Bytes of randomness in the OAuth client state.
pub const CLIENT_STATE_BYTES: usize = 32;

/// A fresh OAuth client state: 32 random bytes, lowercase hex.
pub fn new_client_state() -> (r: String)
    ensures
        exists|bytes: Seq<u8>| bytes.len() == CLIENT_STATE_BYTES && r@ == #[trigger] lower_hex(bytes),
        r@.len() == 2 * CLIENT_STATE_BYTES,
{
    let bytes = random_bytes(CLIENT_STATE_BYTES);
    hex_encode(bytes.as_slice())
}

/// Judges the answer to `/auth/start`: it must be a `302` carrying a
/// `Location` header, which is the authorize URL to open.
pub open spec fn spec_auth_start_location(status: u16, body: Seq<char>, location: Option<Seq<char>>) -> Result<
    Seq<char>,
    Seq<char>,
> {
    if status != STATUS_FOUND {
        Err("auth/start returned "@ + decimal(status as nat) + ": "@ + body)
    } else {
        match location {
            None => Err("auth/start: missing Location header"@),
            Some(l) => Ok(l),
        }
    }
}

/// A `302` with a readable `Location` yields exactly that header's text, query
/// included; any other status, or a `302` without `Location`, is an error.
pub proof fn auth_start_location_is_the_header(status: u16, body: Seq<char>, location: Option<Seq<char>>)
    ensures
        status == STATUS_FOUND && location is Some ==> spec_auth_start_location(status, body, location)
            == Ok::<Seq<char>, Seq<char>>(location->Some_0),
        status != STATUS_FOUND || location is None ==> spec_auth_start_location(status, body, location) is Err,
        spec_auth_start_location(status, body, location) matches Ok(l) ==> location == Some(l),
{
}

/// Judges the answer to `/auth/start` (status, body text, readable `Location`).
pub fn auth_start_location(status: u16, body: &str, location: Option<String>) -> (r: Result<String, String>)
    ensures
        string_result_view(r) == spec_auth_start_location(status, body@, opt_chars(location)),
        status == STATUS_FOUND && location is Some ==> (r matches Ok(s) && s@ == location->Some_0@),
        r matches Ok(s) ==> (location is Some && s@ == location->Some_0@),
{
    if status != STATUS_FOUND {
        let mut m = String::from_str("auth/start returned ");
        push_decimal(&mut m, status as u64);
        m.append(": ");
        m.append(body);
        return Err(m);
    }
    match location {
        None => Err(String::from_str("auth/start: missing Location header")),
        Some(l) => Ok(l),
    }
}

/// A request to the loopback server, by method and path.
pub enum LoopbackRoute {
    /// `GET /callback`: serve the page that posts the fragment back.
    CallbackPage,
    /// `POST /finish`: the body is the fragment; answer `ok` and finish.
    Finish,
    /// Anything else: answer 404 and keep waiting.
    NotFound,
}

/// The path of a request target: everything before the first `?`.
pub open spec fn spec_request_path(url: Seq<char>) -> Seq<char> {
    url.take(find_from(url, '?', 0))
}

/// Routes a loopback request by method and path (the query is ignored).
pub fn loopback_route(method: &str, url: &str) -> (r: LoopbackRoute)
    ensures
        (method@ == "GET"@ && spec_request_path(url@) == "/callback"@) ==> r is CallbackPage,
        (method@ == "POST"@ && spec_request_path(url@) == "/finish"@) ==> r is Finish,
        !(method@ == "GET"@ && spec_request_path(url@) == "/callback"@) && !(method@ == "POST"@
            && spec_request_path(url@) == "/finish"@) ==> r is NotFound,
{
    let v = chars_of(url);
    let end = find_char(&v, '?', 0, v.len());
    proof {
        assert(v@.subrange(0, v@.len() as int) == v@);
        assert(v@.subrange(0, end as int) == spec_request_path(url@));
        reveal_strlit("GET");
        reveal_strlit("POST");
        assert("GET"@.len() != "POST"@.len());
    }
    if str_equals(method, "GET") && range_eq_str(&v, 0, end, "/callback") {
        LoopbackRoute::CallbackPage
    } else if str_equals(method, "POST") && range_eq_str(&v, 0, end, "/finish") {
        LoopbackRoute::Finish
    } else {
        LoopbackRoute::NotFound
    }
}

/// The user-facing wording of an API error.
pub open spec fn spec_format_api_error(err: ApiError) -> Seq<char> {
    match err {
        ApiError::Api { code, message, .. } => if code@ == "OVERLAY_LOGIN_FAILED"@ {
            "Identifiants invalides."@
        } else if code@ == "OVERLAY_ACCOUNT_DISABLED"@ {
            "Compte désactivé."@
        } else if code@ == "OVERLAY_USER_AGENT_REJECTED"@ {
            "Cette version de l'overlay n'est pas autorisée par le serveur."@
        } else {
            code@ + ": "@ + message@
        },
        ApiError::Transport(s) => "Erreur réseau: "@ + s@,
        ApiError::Unauthenticated => "Authentification requise."@,
    }
}

/// Words an API error for the user: known error codes get a fixed sentence,
/// other codes show `code: message`.
pub fn format_api_error(err: &ApiError) -> (r: String)
    ensures
        r@ == spec_format_api_error(*err),
{
    match err {
        ApiError::Api { code, message, .. } => {
            if str_equals(code.as_str(), "OVERLAY_LOGIN_FAILED") {
                String::from_str("Identifiants invalides.")
            } else if str_equals(code.as_str(), "OVERLAY_ACCOUNT_DISABLED") {
                String::from_str("Compte désactivé.")
            } else if str_equals(code.as_str(), "OVERLAY_USER_AGENT_REJECTED") {
                String::from_str("Cette version de l'overlay n'est pas autorisée par le serveur.")
            } else {
                let mut r = code.clone();
                r.append(": ");
                r.append(message.as_str());
                r
            }
        },
        ApiError::Transport(s) => {
            let mut r = String::from_str("Erreur réseau: ");
            r.append(s.as_str());
            r
        },
        ApiError::Unauthenticated => String::from_str("Authentification requise."),
    }
}

/// The auth status reported for a signed-in user, from the answer to `GET /me`:
/// the user's pseudo and role, signed out when authentication is required,
/// and the error's text otherwise.
pub fn auth_status_from_me(me: Result<OverlayUser, ApiError>) -> (r: Result<AuthStatus, String>)
    ensures
        match me {
            Ok(u) => r matches Ok(s) && s.authenticated && s.pseudo == Some(u.pseudo) && s.role == Some(u.role),
            Err(ApiError::Unauthenticated) => r matches Ok(s) && !s.authenticated && s.pseudo is None && s.role is None,
            Err(e) => r matches Err(m) && m@ == api_error_text(e),
        },
{
    match me {
        Ok(u) => Ok(AuthStatus { authenticated: true, pseudo: Some(u.pseudo), role: Some(u.role) }),
        Err(ApiError::Unauthenticated) => Ok(AuthStatus::default()),
        Err(e) => Err(e.to_string()),
    }
}


/// A fragment is accepted only when it carries a `state` equal to the expected
/// one (the loopback flow's protection against forged callbacks), and then the
/// bundle holds the fragment's last `access_token` and `refresh_token` values.
pub proof fn accepted_fragment_carries_expected_state(fragment: Seq<char>, expected_state: Seq<char>, now: i64)
    ensures
        spec_parse_fragment_at(fragment, expected_state, now) matches Ok(b) ==> {
            &&& fragment_fields(fragment).state == Some(expected_state)
            &&& fragment_fields(fragment).access == Some(b.access_token)
            &&& fragment_fields(fragment).refresh == Some(b.refresh_token)
        },
        fragment_fields(fragment).state != Some(expected_state) ==> spec_parse_fragment_at(
            fragment,
            expected_state,
            now,
        ) is Err,
{
}

/// Whether a fragment is accepted does not depend on the clock: only the
/// expiries are stamped from it.
pub proof fn fragment_acceptance_ignores_clock(fragment: Seq<char>, expected_state: Seq<char>, t1: i64, t2: i64)
    ensures
        spec_parse_fragment_at(fragment, expected_state, t1) is Ok <==> spec_parse_fragment_at(
            fragment,
            expected_state,
            t2,
        ) is Ok,
        spec_parse_fragment_at(fragment, expected_state, t1) is Err ==> spec_parse_fragment_at(
            fragment,
            expected_state,
            t1,
        ) == spec_parse_fragment_at(fragment, expected_state, t2),
{
}

} // verus!
