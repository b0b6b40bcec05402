use artycon_overlay::api::auth::{
    auth_start_location, auth_start_url, auth_status_from_me, format_api_error, loopback_route,
    new_client_state, redirect_uri, LoopbackRoute,
};
use artycon_overlay::api::client::{
    bundle_from_response, chrono_now_secs, decode_failure, parse_error, refresh_plan,
    refreshed_bundle, response_is_success, unix_secs_from, ApiError, RefreshPlan, RequestAction,
    RequestFlow,
};
use artycon_overlay::api::form::{url_decode, url_encode};
use artycon_overlay::api::types::{
    ApiErrorBody, ApiErrorEnvelope, AuthStatus, OverlayUser, TokenBundle, TokenResponse,
};
use artycon_overlay::api::{api_url, format_user_agent, layers_path, snapshot_path, API_BASE_URL};
use artycon_overlay::text::hex_encode;

fn api(code: &str, message: &str) -> ApiError {
    ApiError::Api { status: 400, code: code.to_string(), message: message.to_string() }
}

#[test]
fn hex_encode_lowercase_pairs() {
    assert_eq!(hex_encode(&[0x00, 0x0f, 0xa5, 0xff]), "000fa5ff");
    assert_eq!(hex_encode(&[]), "");
}

#[test]
fn url_encode_form_rules() {
    assert_eq!(url_encode("http://127.0.0.1:8080/callback"), "http%3A%2F%2F127.0.0.1%3A8080%2Fcallback");
    assert_eq!(url_encode("a b*-._~é"), "a+b*-._%7E%C3%A9");
    assert_eq!(url_encode(""), "");
}

#[test]
fn url_decode_first_name() {
    assert_eq!(url_decode("a+b%21"), "a b!");
    assert_eq!(url_decode("x=y"), "x");
    assert_eq!(url_decode(""), "");
    assert_eq!(url_decode("&&"), "&&");
}

#[test]
fn auth_start_url_encodes_parameters() {
    let ru = redirect_uri(4321);
    assert_eq!(ru, "http://127.0.0.1:4321/callback");
    assert_eq!(
        auth_start_url(&ru, "ab12"),
        format!("{API_BASE_URL}/api/overlay/auth/start?redirect_uri=http%3A%2F%2F127.0.0.1%3A4321%2Fcallback&state=ab12")
    );
}

#[test]
fn client_state_is_64_hex_chars() {
    let s = new_client_state();
    assert_eq!(s.len(), 64);
    assert!(s.chars().all(|c| c.is_ascii_digit() || ('a'..='f').contains(&c)));
    assert_ne!(s, new_client_state());
}

#[test]
fn auth_start_answer() {
    assert_eq!(
        auth_start_location(302, "", Some("https://discord.com/x".to_string())).unwrap(),
        "https://discord.com/x"
    );
    assert_eq!(
        auth_start_location(302, "", None).unwrap_err(),
        "auth/start: missing Location header"
    );
    assert_eq!(
        auth_start_location(403, "forbidden", Some("l".to_string())).unwrap_err(),
        "auth/start returned 403: forbidden"
    );
}

#[test]
fn loopback_routes() {
    assert!(matches!(loopback_route("GET", "/callback"), LoopbackRoute::CallbackPage));
    assert!(matches!(loopback_route("GET", "/callback?x=1"), LoopbackRoute::CallbackPage));
    assert!(matches!(loopback_route("POST", "/finish"), LoopbackRoute::Finish));
    assert!(matches!(loopback_route("GET", "/finish"), LoopbackRoute::NotFound));
    assert!(matches!(loopback_route("POST", "/callback"), LoopbackRoute::NotFound));
    assert!(matches!(loopback_route("GET", "/favicon.ico"), LoopbackRoute::NotFound));
}

#[test]
fn api_error_wording() {
    assert_eq!(format_api_error(&api("OVERLAY_LOGIN_FAILED", "m")), "Identifiants invalides.");
    assert_eq!(format_api_error(&api("OVERLAY_ACCOUNT_DISABLED", "m")), "Compte désactivé.");
    assert_eq!(
        format_api_error(&api("OVERLAY_USER_AGENT_REJECTED", "m")),
        "Cette version de l'overlay n'est pas autorisée par le serveur."
    );
    assert_eq!(format_api_error(&api("OTHER", "boom")), "OTHER: boom");
    assert_eq!(format_api_error(&ApiError::Transport("t".to_string())), "Erreur réseau: t");
    assert_eq!(format_api_error(&ApiError::Unauthenticated), "Authentification requise.");
}

#[test]
fn api_error_display_text() {
    assert_eq!(api("C", "M").to_string(), "C: M");
    assert_eq!(ApiError::Transport("x".to_string()).to_string(), "transport: x");
    assert_eq!(ApiError::Unauthenticated.to_string(), "unauthenticated");
}

#[test]
fn error_responses() {
    let env = ApiErrorEnvelope {
        error: ApiErrorBody { code: "OVERLAY_TOKEN_EXPIRED".to_string(), message: "expired".to_string() },
    };
    match parse_error(401, Some(env)) {
        ApiError::Api { status, code, message } => {
            assert_eq!(status, 401);
            assert_eq!(code, "OVERLAY_TOKEN_EXPIRED");
            assert_eq!(message, "expired");
        }
        _ => panic!("expected Api"),
    }
    match parse_error(502, None) {
        ApiError::Api { status, code, message } => {
            assert_eq!(status, 502);
            assert_eq!(code, "UNKNOWN");
            assert_eq!(message, "HTTP 502");
        }
        _ => panic!("expected Api"),
    }
}

#[test]
fn request_without_token_fails() {
    let (_, a) = RequestFlow::begin(None);
    assert!(matches!(a, RequestAction::Fail(ApiError::Unauthenticated)));
}

#[test]
fn request_success_on_first_send() {
    let (mut f, a) = RequestFlow::begin(Some("t".to_string()));
    assert!(matches!(a, RequestAction::Send(ref t) if t == "t"));
    assert!(matches!(f.on_response(200), RequestAction::DecodeBody));
    assert_eq!(f.sends(), 1);
}

#[test]
fn request_error_status_is_parsed() {
    let (mut f, _) = RequestFlow::begin(Some("t".to_string()));
    assert!(matches!(f.on_response(404), RequestAction::ErrorFromResponse));
}

#[test]
fn request_refreshes_once_then_retries() {
    let (mut f, _) = RequestFlow::begin(Some("old".to_string()));
    assert!(matches!(f.on_response(401), RequestAction::RefreshFor(ref t) if t == "old"));
    assert!(matches!(f.on_refresh(Ok(true), Some("new".to_string())), RequestAction::Send(ref t) if t == "new"));
    assert_eq!(f.sends(), 2);
    // a second 401 is not refreshed again
    assert!(matches!(f.on_response(401), RequestAction::ErrorFromResponse));
}

#[test]
fn request_refresh_failures() {
    let (mut f, _) = RequestFlow::begin(Some("old".to_string()));
    f.on_response(401);
    assert!(matches!(f.on_refresh(Err(ApiError::Unauthenticated), None), RequestAction::Fail(ApiError::Unauthenticated)));
    let (mut f, _) = RequestFlow::begin(Some("old".to_string()));
    f.on_response(401);
    assert!(matches!(f.on_refresh(Ok(true), None), RequestAction::Fail(ApiError::Unauthenticated)));
    let (mut f, _) = RequestFlow::begin(Some("old".to_string()));
    f.on_response(401);
    assert!(matches!(f.on_refresh(Ok(false), None), RequestAction::ErrorFromResponse));
    assert_eq!(f.sends(), 1);
}

#[test]
fn refresh_answer_decoding() {
    match refreshed_bundle(Err("eof".to_string()), 5) {
        Err(ApiError::Transport(s)) => assert_eq!(s, "refresh json: eof"),
        _ => panic!("expected Transport"),
    }
    let tr = TokenResponse {
        access_token: "A".to_string(),
        refresh_token: "R".to_string(),
        access_token_expires_in: 10,
        refresh_token_expires_in: 20,
    };
    let b = refreshed_bundle(Ok(tr), 5).unwrap();
    assert_eq!((b.access_expires_at, b.refresh_expires_at), (15, 25));
}

#[test]
fn success_statuses() {
    assert!(response_is_success(200));
    assert!(response_is_success(204));
    assert!(!response_is_success(302));
    assert!(!response_is_success(404));
}

#[test]
fn decode_failure_previews_300_chars() {
    let body = "x".repeat(400);
    match decode_failure("expected value", &body) {
        ApiError::Transport(s) => {
            assert_eq!(s, format!("json: expected value | body: {}", "x".repeat(300)));
        }
        _ => panic!("expected Transport"),
    }
    match decode_failure("e", "short") {
        ApiError::Transport(s) => assert_eq!(s, "json: e | body: short"),
        _ => panic!("expected Transport"),
    }
}

fn bundle(access: &str, refresh: &str) -> TokenBundle {
    TokenBundle {
        access_token: access.to_string(),
        refresh_token: refresh.to_string(),
        access_expires_at: 0,
        refresh_expires_at: 0,
    }
}

#[test]
fn refresh_plans() {
    assert!(matches!(refresh_plan(&None, "a"), RefreshPlan::Unauthenticated));
    assert!(matches!(refresh_plan(&Some(bundle("new", "r")), "old"), RefreshPlan::AlreadyRefreshed));
    match refresh_plan(&Some(bundle("a", "r")), "a") {
        RefreshPlan::Refresh(t) => assert_eq!(t, "r"),
        _ => panic!("expected Refresh"),
    }
}

#[test]
fn bundle_from_token_response() {
    let tr = TokenResponse {
        access_token: "A".to_string(),
        refresh_token: "R".to_string(),
        access_token_expires_in: 900,
        refresh_token_expires_in: 2_592_000,
    };
    let b = bundle_from_response(tr, 1_700_000_000);
    assert_eq!(b.access_token, "A");
    assert_eq!(b.refresh_token, "R");
    assert_eq!(b.access_expires_at, 1_700_000_900);
    assert_eq!(b.refresh_expires_at, 1_702_592_000);
}

#[test]
fn clock_reads_after_2020() {
    assert!(chrono_now_secs() > 1_577_836_800);
}

#[test]
fn auth_status_mapping() {
    let u = OverlayUser {
        id: "1".to_string(),
        pseudo: "p".to_string(),
        role: "admin".to_string(),
        discord_id: None,
    };
    let s = auth_status_from_me(Ok(u)).unwrap();
    assert!(s.authenticated);
    assert_eq!(s.pseudo.as_deref(), Some("p"));
    assert_eq!(s.role.as_deref(), Some("admin"));
    let s = auth_status_from_me(Err(ApiError::Unauthenticated)).unwrap();
    assert!(!s.authenticated && s.pseudo.is_none() && s.role.is_none());
    assert_eq!(auth_status_from_me(Err(api("C", "M"))).unwrap_err(), "C: M");
    let d = AuthStatus::default();
    assert!(!d.authenticated);
}

#[test]
fn urls_and_user_agent() {
    assert_eq!(api_url("/api/overlay/me"), "https://artycon.11e-foxhole.com/api/overlay/me");
    assert_eq!(layers_path("i1"), "/api/overlay/instances/i1/layers");
    assert_eq!(snapshot_path("i1", "l2"), "/api/overlay/instances/i1/layers/l2/snapshot");
    assert_eq!(format_user_agent("0.3.1", "windows", "x86_64"), "ArtyConOverlay/0.3.1 (windows-x86_64)");
}

#[test]
fn clock_reading_to_seconds() {
    assert_eq!(unix_secs_from(Some(1_700_000_000)), 1_700_000_000);
    assert_eq!(unix_secs_from(None), 0);
    assert_eq!(unix_secs_from(Some(u64::MAX)), -1);
}

#[test]
fn hex_reads_back_and_differs() {
    let a = hex_encode(&[0x12, 0xab]);
    assert_eq!(u8::from_str_radix(&a[0..2], 16), Ok(0x12));
    assert_eq!(u8::from_str_radix(&a[2..4], 16), Ok(0xab));
    assert_ne!(hex_encode(&[0x01, 0x23]), hex_encode(&[0x12, 0x03]));
}

#[test]
fn plain_values_decode_to_themselves() {
    assert_eq!(url_decode("AT"), "AT");
    assert_eq!(url_decode("abc.-_~"), "abc.-_~");
}
