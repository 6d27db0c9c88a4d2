use registry_cache::json::JsonValue;
use registry_cache::{AssetsOrIcons, ElementsNetwork, ValueModified};

fn assets_doc(inner: JsonValue) -> JsonValue {
    JsonValue::Obj(vec![("assets".to_string(), inner)])
}

#[test]
fn construct_keeps_marker() {
    let e = ValueModified::new(JsonValue::Bool(true), "etag-1".to_string());
    assert_eq!(e.last_modified(), "etag-1");
}

#[test]
fn construct_accepts_empty_marker() {
    let e = ValueModified::new(JsonValue::Int(42), String::new());
    assert_eq!(e.last_modified(), "");
}

#[test]
fn equality_is_value_and_marker() {
    let a = ValueModified::new(assets_doc(JsonValue::Obj(vec![])), "m".to_string());
    let b = ValueModified::new(assets_doc(JsonValue::Obj(vec![])), "m".to_string());
    assert_eq!(a, b);
    // same content, different marker: not equal
    let c = ValueModified::new(assets_doc(JsonValue::Obj(vec![])), "other".to_string());
    assert_ne!(a, c);
    // different content, same marker: not equal
    let d = ValueModified::new(JsonValue::Null, "m".to_string());
    assert_ne!(a, d);
}

#[test]
fn deep_structural_equality() {
    let v1 = JsonValue::Arr(vec![
        JsonValue::Int(1),
        JsonValue::Obj(vec![("k".to_string(), JsonValue::Str("x".to_string()))]),
    ]);
    let v2 = JsonValue::Arr(vec![
        JsonValue::Int(1),
        JsonValue::Obj(vec![("k".to_string(), JsonValue::Str("x".to_string()))]),
    ]);
    assert_eq!(v1, v2);
    let v3 = JsonValue::Arr(vec![
        JsonValue::Int(1),
        JsonValue::Obj(vec![("k".to_string(), JsonValue::Str("y".to_string()))]),
    ]);
    assert_ne!(v1, v3);
    let v4 = JsonValue::Arr(vec![JsonValue::Int(1)]);
    assert_ne!(v1, v4);
}

#[test]
fn default_is_null_value_and_empty_marker() {
    let d = ValueModified::default();
    assert_eq!(d, ValueModified::new(JsonValue::Null, String::new()));
    assert_eq!(d.last_modified(), "");
    let f = ValueModified::from_hard_coded(ElementsNetwork::Liquid, AssetsOrIcons::Assets);
    assert_ne!(d, f);
}

#[test]
fn fallback_marker_is_empty_for_every_input() {
    let networks = [
        ElementsNetwork::Liquid,
        ElementsNetwork::LiquidTestnet,
        ElementsNetwork::ElementsRegtest,
    ];
    let kinds = [AssetsOrIcons::Assets, AssetsOrIcons::Icons];
    for network in networks {
        for kind in kinds {
            let e = ValueModified::from_hard_coded(network, kind);
            assert_eq!(e.last_modified(), "");
        }
    }
}

#[test]
fn fallback_is_deterministic() {
    let a = ValueModified::from_hard_coded(ElementsNetwork::Liquid, AssetsOrIcons::Icons);
    let b = ValueModified::from_hard_coded(ElementsNetwork::Liquid, AssetsOrIcons::Icons);
    assert_eq!(a, b);
}

#[test]
fn into_parts_returns_both_fields() {
    let e = ValueModified::new(JsonValue::Str("payload".to_string()), "mk".to_string());
    let (value, marker) = e.into_parts();
    assert_eq!(value, JsonValue::Str("payload".to_string()));
    assert_eq!(marker, "mk");
}
