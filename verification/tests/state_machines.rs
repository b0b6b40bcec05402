use artycon_overlay::api::client::{judge_refresh_answer, ApiError, RefreshAnswer};
use artycon_overlay::api::sse::{event_data, AfterStream, ConnectPlan, ItemAction, SseSession, StreamItem};
use artycon_overlay::api::tokens::TokenStore;
use artycon_overlay::api::types::TokenBundle;
use artycon_overlay::content::{select_content, ContentItem, ContentSection};
use artycon_overlay::settings::{
    default_active_mode, default_active_section, default_font_size, geometry_save_due, hotkey_changed,
    overlay_toggle,
};

const MACHINE: &[u8] = b"machine";

fn sleep_of(a: AfterStream) -> u64 {
    match a {
        AfterStream::Sleep(d) => d,
        AfterStream::RecheckAuth => panic!("expected Sleep"),
    }
}

#[test]
fn backoff_doubles_up_to_thirty() {
    let mut s = SseSession::new();
    let mut delays = Vec::new();
    for _ in 0..8 {
        s.connect_plan(Some("t".to_string()), "i");
        assert!(matches!(s.on_item(StreamItem::Failure, 0), ItemAction::EndStream));
        delays.push(sleep_of(s.on_stream_end(1)));
    }
    assert_eq!(delays, vec![1, 2, 4, 8, 16, 30, 30, 30]);
}

#[test]
fn stable_connection_resets_backoff() {
    let mut s = SseSession::new();
    for _ in 0..4 {
        s.connect_plan(Some("t".to_string()), "i");
        s.on_stream_end(0);
    }
    assert_eq!(s.backoff(), 16);
    s.connect_plan(Some("t".to_string()), "i");
    assert!(matches!(s.on_item(StreamItem::Comment, 10), ItemAction::Ignore));
    assert_eq!(sleep_of(s.on_stream_end(61)), 1);
    // an event on a connection up for 60 s resets at once
    for _ in 0..3 {
        s.connect_plan(Some("t".to_string()), "i");
        s.on_stream_end(0);
    }
    s.connect_plan(Some("t".to_string()), "i");
    assert!(matches!(s.on_item(StreamItem::Event, 60), ItemAction::EmitEvent));
    assert_eq!(s.backoff(), 1);
}

#[test]
fn short_connection_keeps_backoff() {
    let mut s = SseSession::new();
    s.connect_plan(Some("t".to_string()), "i");
    s.on_stream_end(0);
    s.connect_plan(Some("t".to_string()), "i");
    s.on_item(StreamItem::Event, 5);
    assert_eq!(sleep_of(s.on_stream_end(59)), 2);
}

#[test]
fn unauthorized_stream_rechecks_auth() {
    let mut s = SseSession::new();
    s.connect_plan(Some("t".to_string()), "i");
    s.on_stream_end(0);
    s.connect_plan(Some("t".to_string()), "i");
    assert!(matches!(s.on_item(StreamItem::UnexpectedResponse(401), 0), ItemAction::EndStream));
    assert!(matches!(s.on_stream_end(0), AfterStream::RecheckAuth));
    assert!(s.on_auth_recheck(true));
    assert_eq!(s.backoff(), 1);
    s.connect_plan(Some("t".to_string()), "i");
    assert!(matches!(s.on_item(StreamItem::UnexpectedResponse(401), 0), ItemAction::EndStream));
    assert!(matches!(s.on_stream_end(0), AfterStream::RecheckAuth));
    assert!(!s.on_auth_recheck(false));
}

#[test]
fn other_status_just_backs_off() {
    let mut s = SseSession::new();
    s.connect_plan(Some("t".to_string()), "i");
    s.on_item(StreamItem::UnexpectedResponse(500), 0);
    assert_eq!(sleep_of(s.on_stream_end(0)), 1);
}

#[test]
fn connect_plans() {
    let mut s = SseSession::new();
    assert!(matches!(s.connect_plan(None, "i"), ConnectPlan::AuthRequired));
    match s.connect_plan(Some("tok".to_string()), "inst-1") {
        ConnectPlan::Open { url, authorization } => {
            assert_eq!(url, "https://artycon.11e-foxhole.com/api/overlay/instances/inst-1/events");
            assert_eq!(authorization, "Bearer tok");
        }
        ConnectPlan::AuthRequired => panic!("expected Open"),
    }
    assert!(matches!(s.on_item(StreamItem::Connected, 0), ItemAction::EmitConnected));
}

fn bundle() -> TokenBundle {
    TokenBundle {
        access_token: "A".to_string(),
        refresh_token: "R".to_string(),
        access_expires_at: 10,
        refresh_expires_at: 20,
    }
}

#[test]
fn token_store_round_trip() {
    let mut store = TokenStore::default();
    assert!(!store.is_authenticated());
    assert!(store.get().is_none());
    let mut field: Option<String> = None;
    store.store(bundle(), b"{\"serialized\":true}", MACHINE, &mut field).unwrap();
    assert!(store.is_authenticated());
    assert_eq!(store.get().unwrap().access_token, "A");
    assert_eq!(
        TokenStore::stored_plaintext(&field, MACHINE).unwrap(),
        b"{\"serialized\":true}".to_vec()
    );
    assert!(TokenStore::stored_plaintext(&field, b"elsewhere").is_none());
    assert!(store.clear(&mut field));
    assert!(field.is_none());
    assert!(!store.is_authenticated());
    assert!(!store.clear(&mut field));
}

#[test]
fn clear_disk_only() {
    let mut field = Some("blob".to_string());
    assert!(TokenStore::clear_disk_sync(&mut field));
    assert!(field.is_none());
    assert!(!TokenStore::clear_disk_sync(&mut field));
    assert!(TokenStore::stored_plaintext(&None, MACHINE).is_none());
    assert!(TokenStore::stored_plaintext(&Some("garbage".to_string()), MACHINE).is_none());
    let s = TokenStore::from_cached(Some(bundle()));
    assert_eq!(s.get().unwrap().refresh_token, "R");
}

fn section(name: &str) -> ContentSection {
    ContentSection {
        section: name.to_string(),
        items: vec![ContentItem { key: "AT".to_string(), value: "Antichar".to_string() }],
    }
}

#[test]
fn content_override_wins() {
    let r = select_content(Some(vec![section("user")]), Some(vec![section("built-in")]));
    assert_eq!(r[0].section, "user");
    let r = select_content(None, Some(vec![section("built-in")]));
    assert_eq!(r[0].section, "built-in");
    assert_eq!(r[0].items[0].value, "Antichar");
    assert!(select_content(None, None).is_empty());
}

#[test]
fn settings_defaults_and_decisions() {
    assert_eq!(default_font_size(), 12);
    assert!(default_active_section().is_none());
    assert_eq!(default_active_mode(), "lexique");
    assert!(hotkey_changed("F1", "F2"));
    assert!(!hotkey_changed("F1", "F1"));
    let t = overlay_toggle(true);
    assert!(!t.show_overlay && t.tray_visible);
    let t = overlay_toggle(false);
    assert!(t.show_overlay && !t.tray_visible);
}

#[test]
fn refused_refresh_wipes_tokens() {
    let mut store = TokenStore::default();
    let mut field: Option<String> = None;
    store.store(bundle(), b"{}", MACHINE, &mut field).unwrap();
    match judge_refresh_answer(200, &mut store, &mut field) {
        RefreshAnswer::DecodeTokens => {}
        RefreshAnswer::Refused { .. } => panic!("2xx must not wipe"),
    }
    assert!(store.is_authenticated() && field.is_some());
    match judge_refresh_answer(401, &mut store, &mut field) {
        RefreshAnswer::Refused { error, blob_wiped } => {
            assert!(matches!(error, ApiError::Unauthenticated));
            assert!(blob_wiped);
        }
        RefreshAnswer::DecodeTokens => panic!("401 must wipe"),
    }
    assert!(!store.is_authenticated() && field.is_none());
    match judge_refresh_answer(500, &mut store, &mut field) {
        RefreshAnswer::Refused { blob_wiped, .. } => assert!(!blob_wiped),
        RefreshAnswer::DecodeTokens => panic!("500 must wipe"),
    }
}

#[test]
fn event_data_json_or_string() {
    let v = event_data(r#"{"a":1}"#);
    assert_eq!(v, serde_json::from_str::<serde_json::Value>(r#"{"a":1}"#).unwrap());
    assert_eq!(event_data("not json"), serde_json::Value::String("not json".to_string()));
}

#[test]
fn geometry_saves_are_throttled() {
    assert!(!geometry_save_due(0));
    assert!(!geometry_save_due(399));
    assert!(geometry_save_due(400));
    assert!(geometry_save_due(10_000));
}
