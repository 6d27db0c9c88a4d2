use registry_cache::json::{JsonKind, JsonValue};
use registry_cache::typed::IconMap;
use registry_cache::{AssetMap, AssetsOrIcons, DeserializationError, ElementsNetwork, ValueModified};

#[test]
fn extract_assets_from_empty_map() {
    let doc = JsonValue::Obj(vec![("assets".to_string(), JsonValue::Obj(vec![]))]);
    let e = ValueModified::new(doc, "etag-123".to_string());
    let m: AssetMap = e.deserialize_into().unwrap();
    assert_eq!(m.len(), 0);
}

#[test]
fn extract_assets_entries() {
    let doc = JsonValue::Obj(vec![(
        "assets".to_string(),
        JsonValue::Obj(vec![(
            "asset-id-1".to_string(),
            JsonValue::Str("definition".to_string()),
        )]),
    )]);
    let e = ValueModified::new(doc, "etag-123".to_string());
    let m: AssetMap = e.deserialize_into().unwrap();
    assert_eq!(m.len(), 1);
    let entry = m.entry_at(0);
    assert_eq!(entry.0, "asset-id-1");
    assert_eq!(entry.1, JsonValue::Str("definition".to_string()));
}

#[test]
fn extract_assets_wrong_shape() {
    let doc = JsonValue::Obj(vec![(
        "assets".to_string(),
        JsonValue::Str("not-a-map".to_string()),
    )]);
    let e = ValueModified::new(doc, "etag-123".to_string());
    let r: Result<AssetMap, DeserializationError> = e.deserialize_into();
    let err = r.unwrap_err();
    assert_eq!(err.path(), "assets");
    assert_eq!(err.expected(), JsonKind::Obj);
    assert_eq!(err.found(), JsonKind::Str);
}

#[test]
fn extract_assets_missing_field() {
    let doc = JsonValue::Obj(vec![("icons".to_string(), JsonValue::Obj(vec![]))]);
    let e = ValueModified::new(doc, String::new());
    let err = e.deserialize_into::<AssetMap>().unwrap_err();
    assert_eq!(err.path(), "assets");
    assert_eq!(err.expected(), JsonKind::Obj);
    assert_eq!(err.found(), JsonKind::Absent);
}

#[test]
fn extract_assets_root_not_object() {
    let e = ValueModified::new(JsonValue::Int(7), String::new());
    let err = e.deserialize_into::<AssetMap>().unwrap_err();
    assert_eq!(err.path(), "");
    assert_eq!(err.expected(), JsonKind::Obj);
    assert_eq!(err.found(), JsonKind::Int);
}

#[test]
fn extract_assets_first_field_wins() {
    let doc = JsonValue::Obj(vec![
        ("assets".to_string(), JsonValue::Obj(vec![])),
        ("assets".to_string(), JsonValue::Str("shadowed".to_string())),
    ]);
    let e = ValueModified::new(doc, String::new());
    let m: AssetMap = e.deserialize_into().unwrap();
    assert_eq!(m.len(), 0);
}

#[test]
fn extract_icons_entries() {
    let doc = JsonValue::Obj(vec![(
        "icons".to_string(),
        JsonValue::Obj(vec![
            ("asset-id-1".to_string(), JsonValue::Str("aWNvbg==".to_string())),
            ("asset-id-2".to_string(), JsonValue::Str("aWNvbjI=".to_string())),
        ]),
    )]);
    let e = ValueModified::new(doc, "etag-9".to_string());
    let m: IconMap = e.deserialize_into().unwrap();
    assert_eq!(m.len(), 2);
    assert_eq!(m.icon_at(0).0, "asset-id-1");
    assert_eq!(m.icon_at(0).1, "aWNvbg==");
    assert_eq!(m.icon_at(1).0, "asset-id-2");
    assert_eq!(m.icon_at(1).1, "aWNvbjI=");
}

#[test]
fn extract_icons_wrong_scalar_kind() {
    let doc = JsonValue::Obj(vec![(
        "icons".to_string(),
        JsonValue::Obj(vec![
            ("good".to_string(), JsonValue::Str("aWNvbg==".to_string())),
            ("bad".to_string(), JsonValue::Int(5)),
        ]),
    )]);
    let e = ValueModified::new(doc, String::new());
    let err = e.deserialize_into::<IconMap>().unwrap_err();
    assert_eq!(err.path(), "bad");
    assert_eq!(err.expected(), JsonKind::Str);
    assert_eq!(err.found(), JsonKind::Int);
}

#[test]
fn extract_icons_missing_field() {
    let doc = JsonValue::Obj(vec![("assets".to_string(), JsonValue::Obj(vec![]))]);
    let e = ValueModified::new(doc, String::new());
    let err = e.deserialize_into::<IconMap>().unwrap_err();
    assert_eq!(err.path(), "icons");
    assert_eq!(err.expected(), JsonKind::Obj);
    assert_eq!(err.found(), JsonKind::Absent);
}

#[test]
fn fallback_assets_extract_to_empty_map() {
    let e = ValueModified::from_hard_coded(ElementsNetwork::LiquidTestnet, AssetsOrIcons::Assets);
    let m: AssetMap = e.deserialize_into().unwrap();
    assert_eq!(m.len(), 0);
}

#[test]
fn fallback_icons_extract_to_empty_map() {
    let e = ValueModified::from_hard_coded(ElementsNetwork::ElementsRegtest, AssetsOrIcons::Icons);
    let m: IconMap = e.deserialize_into().unwrap();
    assert_eq!(m.len(), 0);
}
