use artycon_overlay::api::auth::{parse_fragment, parse_fragment_at};

#[test]
fn parse_fragment_ok() {
    let frag = "access_token=AT&refresh_token=RT&access_token_expires_in=600\
                &refresh_token_expires_in=1000&state=abc";
    let b = parse_fragment(frag, "abc").unwrap();
    assert_eq!(b.access_token, "AT");
    assert_eq!(b.refresh_token, "RT");
}

#[test]
fn parse_fragment_state_mismatch() {
    let frag = "access_token=AT&refresh_token=RT&state=xxx";
    assert!(parse_fragment(frag, "abc").is_err());
}

#[test]
fn fragment_expiries_are_now_plus_lifetimes() {
    let frag = "access_token=AT&refresh_token=RT&access_token_expires_in=600\
                &refresh_token_expires_in=1000&state=abc";
    let b = parse_fragment_at(frag, "abc", 1_000_000).unwrap();
    assert_eq!(b.access_expires_at, 1_000_600);
    assert_eq!(b.refresh_expires_at, 1_001_000);
}

#[test]
fn fragment_default_lifetimes() {
    let b = parse_fragment_at("state=s&access_token=A&refresh_token=R", "s", 100).unwrap();
    assert_eq!(b.access_expires_at, 1_000);
    assert_eq!(b.refresh_expires_at, 2_592_100);
}

#[test]
fn fragment_unparsable_lifetime_falls_back() {
    let b = parse_fragment_at(
        "state=s&access_token=A&refresh_token=R&access_token_expires_in=soon&refresh_token_expires_in=-5",
        "s",
        100,
    )
    .unwrap();
    assert_eq!(b.access_expires_at, 1_000);
    assert_eq!(b.refresh_expires_at, 95);
}

#[test]
fn fragment_leading_hashes_are_skipped() {
    let b = parse_fragment_at("##state=s&access_token=A&refresh_token=R", "s", 0).unwrap();
    assert_eq!(b.access_token, "A");
}

#[test]
fn fragment_values_are_form_decoded() {
    let b = parse_fragment_at("state=a%20b&access_token=x+y&refresh_token=%2F%3D", "a b", 0).unwrap();
    assert_eq!(b.access_token, "x y");
    assert_eq!(b.refresh_token, "/=");
}

#[test]
fn fragment_later_pair_wins() {
    let b = parse_fragment_at("state=s&access_token=A&access_token=B&refresh_token=R", "s", 0).unwrap();
    assert_eq!(b.access_token, "B");
}

#[test]
fn fragment_error_messages() {
    assert_eq!(parse_fragment_at("", "s", 0).unwrap_err(), "missing state");
    assert_eq!(parse_fragment_at("access_token=A&refresh_token=R", "s", 0).unwrap_err(), "missing state");
    assert_eq!(parse_fragment_at("state=t&access_token=A&refresh_token=R", "s", 0).unwrap_err(), "state mismatch");
    assert_eq!(parse_fragment_at("state=s&refresh_token=R", "s", 0).unwrap_err(), "missing access_token");
    assert_eq!(parse_fragment_at("state=s&access_token=A", "s", 0).unwrap_err(), "missing refresh_token");
}

#[test]
fn fragment_expiry_wraps_on_overflow() {
    let b = parse_fragment_at(
        "state=s&access_token=A&refresh_token=R&access_token_expires_in=9223372036854775807",
        "s",
        1,
    )
    .unwrap();
    assert_eq!(b.access_expires_at, i64::MIN);
}

#[test]
fn fragment_empty_and_valueless_pairs() {
    let b = parse_fragment_at("&&state=s&&access_token=A&junk&refresh_token=R&", "s", 0).unwrap();
    assert_eq!(b.access_token, "A");
    assert_eq!(b.refresh_token, "R");
    // a name without '=' reads as an empty value
    let b = parse_fragment_at("state=&access_token&refresh_token=R", "", 0).unwrap();
    assert_eq!(b.access_token, "");
}
