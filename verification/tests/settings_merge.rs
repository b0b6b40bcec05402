use artycon_overlay::settings::merge_settings_json;

fn v(s: &str) -> serde_json::Value {
    serde_json::from_str(s).unwrap()
}

#[test]
fn patch_fields_override_others_stay() {
    let cur = v(r#"{"hotkey":"F1","fontSize":12,"activeMode":"lexique"}"#);
    let patch = v(r#"{"fontSize":14,"artyGroupId":"g"}"#);
    let merged = merge_settings_json(cur, &patch);
    assert_eq!(merged, v(r#"{"hotkey":"F1","fontSize":14,"activeMode":"lexique","artyGroupId":"g"}"#));
}

#[test]
fn empty_patch_changes_nothing() {
    let cur = v(r#"{"hotkey":"F1"}"#);
    assert_eq!(merge_settings_json(cur.clone(), &v("{}")), cur);
}

#[test]
fn non_object_patch_or_base_is_ignored() {
    let cur = v(r#"{"hotkey":"F1"}"#);
    assert_eq!(merge_settings_json(cur.clone(), &v("[1,2]")), cur);
    assert_eq!(merge_settings_json(v("3"), &v(r#"{"a":1}"#)), v("3"));
}
