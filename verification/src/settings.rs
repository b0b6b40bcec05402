//! Defaults of the persisted application settings, and the decisions taken
//! when settings change.

use vstd::prelude::*;
use crate::json::{
    json_from_object, json_into_object, json_is_object, json_map_entries, json_map_insert,
    json_object_entries, json_object_items,
};

verus! {

/// Name of the settings file, next to the executable.
pub const SETTINGS_FILE_NAME: &'static str = "11eOverlay.json";

/// Default content font size, in pixels.
pub fn default_font_size() -> (r: u32)
    ensures
        r == 12,
{
    12
}

/// Default active section chip: none (all sections).
pub fn default_active_section() -> (r: Option<String>)
    ensures
        r is None,
{
    None
}

/// Default top-level mode.
pub fn default_active_mode() -> (r: String)
    ensures
        r@ == "lexique"@,
{
    String::from_str("lexique")
}

/// Whether the toggle shortcut must be registered again after a settings
/// change: exactly when the hotkey changed.
pub fn hotkey_changed(previous: &str, current: &str) -> (r: bool)
    ensures
        r == (previous@ != current@),
{
    !crate::text::str_equals(previous, current)
}

/// What the toggle shortcut does, given whether the overlay is visible.
pub struct OverlayToggle {
    /// Show (and focus) the overlay when `true`, hide it when `false`.
    pub show_overlay: bool,
    /// Whether the tray icon is shown afterwards.
    pub tray_visible: bool,
}

/// The toggle shortcut hides a visible overlay and shows the tray icon, or
/// shows and focuses a hidden overlay and hides the tray icon.
pub fn overlay_toggle(overlay_visible: bool) -> (r: OverlayToggle)
    ensures
        r.show_overlay == !overlay_visible,
        r.tray_visible == overlay_visible,
{
    OverlayToggle { show_overlay: !overlay_visible, tray_visible: overlay_visible }
}


/// Shortest pause between two saves of the overlay's position and size, in milliseconds.
pub const GEOMETRY_SAVE_INTERVAL_MS: u64 = 400;

/// Whether a move or resize is saved: only when at least 400 ms passed since
/// the last save (moves and resizes in between are dropped).
pub fn geometry_save_due(ms_since_last_save: u64) -> (r: bool)
    ensures
        r == (ms_since_last_save >= GEOMETRY_SAVE_INTERVAL_MS),
{
    ms_since_last_save >= GEOMETRY_SAVE_INTERVAL_MS
}

/// The keys of a run of pairs.
pub open spec fn pair_keys(s: Seq<(String, serde_json::Value)>) -> Set<Seq<char>> {
    Set::new(|k: Seq<char>| exists|j: int| 0 <= j < s.len() && (#[trigger] s[j]).0@ == k)
}

/// Non-destructive merge of settings in JSON form: when both are objects, every
/// field present in `patch` overrides the same field of `current` and every
/// other field of `current` stays; otherwise `current` is returned unchanged.
pub fn merge_settings_json(current: serde_json::Value, patch: &serde_json::Value) -> (r: serde_json::Value)
    ensures
        match (json_object_entries(current), json_object_entries(*patch)) {
            (Some(b), Some(p)) => json_object_entries(r) == Some(b.union_prefer_right(p)),
            _ => r == current,
        },
{
    if !json_is_object(patch) {
        return current;
    }
    let ghost cur = current;
    let mut m = match json_into_object(current) {
        Err(o) => return o,
        Ok(m) => m,
    };
    let ghost b = json_map_entries(m);
    let ghost p = json_object_entries(*patch)->Some_0;
    let mut items = json_object_items(patch);
    let ghost all = items@;
    proof {
        assert(all.skip(all.len() as int) =~= Seq::<(String, serde_json::Value)>::empty());
        assert(pair_keys(Seq::<(String, serde_json::Value)>::empty()) =~= Set::<Seq<char>>::empty());
        assert(p.restrict(Set::<Seq<char>>::empty()) =~= Map::<Seq<char>, serde_json::Value>::empty());
        assert(b.union_prefer_right(Map::<Seq<char>, serde_json::Value>::empty()) =~= b);
        assert(all.take(all.len() as int) =~= all);
    }
    while items.len() > 0
        invariant
            json_object_entries(cur) == Some(b),
            json_object_entries(*patch) == Some(p),
            items@ == all.take(items@.len() as int),
            items@.len() <= all.len(),
            json_map_entries(m) == b.union_prefer_right(p.restrict(pair_keys(all.skip(items@.len() as int)))),
            forall|i: int, j: int|
                0 <= i < j < all.len() ==> (#[trigger] all[i]).0@ != (#[trigger] all[j]).0@,
            forall|i: int|
                0 <= i < all.len() ==> p.contains_key((#[trigger] all[i]).0@) && p[all[i].0@] == all[i].1,
            forall|k: Seq<char>|
                #[trigger] p.contains_key(k) ==> exists|i: int| 0 <= i < all.len() && (#[trigger] all[i]).0@ == k,
        decreases items@.len(),
    {
        let ghost l = items@.len() as int;
        let (k, x) = items.pop().unwrap();
        proof {
            assert(all[l - 1] == (k, x));
            let done = all.skip(l);
            let done2 = all.skip(l - 1);
            assert(pair_keys(done2) =~= pair_keys(done).insert(k@)) by {
                assert forall|key: Seq<char>| pair_keys(done2).contains(key) implies pair_keys(done).insert(k@).contains(key) by {
                    let j = choose|j: int| 0 <= j < done2.len() && (#[trigger] done2[j]).0@ == key;
                    if j > 0 {
                        assert(done[j - 1] == done2[j]);
                    }
                }
                assert forall|key: Seq<char>| pair_keys(done).insert(k@).contains(key) implies pair_keys(done2).contains(key) by {
                    if key == k@ {
                        assert(done2[0].0@ == key);
                    } else {
                        let j = choose|j: int| 0 <= j < done.len() && (#[trigger] done[j]).0@ == key;
                        assert(done2[j + 1] == done[j]);
                    }
                }
            }
            assert(b.union_prefer_right(p.restrict(pair_keys(done))).insert(k@, x) =~= b.union_prefer_right(
                p.restrict(pair_keys(done2)),
            ));
            assert(items@ =~= all.take(l - 1));
        }
        json_map_insert(&mut m, k, x);
    }
    proof {
        assert(all.skip(0) =~= all);
        assert(p.restrict(pair_keys(all)) =~= p);
    }
    json_from_object(m)
}

} // verus!
