//! The response envelope: success first, the error shape on mismatch, and
//! a decode error carrying the raw body when neither fits.

use smmo_api::client::{decode_response, ApiErrorType, SmmoError};
use smmo_api::json::JsonValue;
use smmo_api::json_parse::parse_json;
use smmo_api::models::item::Item;
use smmo_api::models::orphanage::Orphanage;

#[test]
fn test_item_not_found() {
    let json = r#"{
            "error": "item not found"
        }"#;

    assert!(matches!(
        decode_response::<Orphanage>(json, "test-url"),
        Err(SmmoError::ApiError { error: ApiErrorType::ItemNotFound }),
    ));
}

#[test]
fn test_item_not_found_api_error() {
    let json = r#"{
            "error": "item not found"
        }"#;

    let v = parse_json(json).unwrap();
    let err = match v.get("error") {
        Some(JsonValue::Str(s)) => SmmoError::ApiError { error: ApiErrorType::from_wire(s.as_str()) },
        other => panic!("expected an error member, got {:?}", other),
    };
    assert!(matches!(err, SmmoError::ApiError { error: ApiErrorType::ItemNotFound }));
}

#[test]
fn test_api_error_type_item_not_found() {
    let json = r#""item not found""#;
    let v = parse_json(json).unwrap();
    let s = match &v {
        JsonValue::Str(s) => s.clone(),
        other => panic!("expected a JSON string, got {:?}", other),
    };
    assert_eq!(ApiErrorType::from_wire(s.as_str()), ApiErrorType::ItemNotFound);
}

#[test]
fn test_api_error_type_unauthenticated() {
    let json = r#""unauthenticated""#;
    let v = parse_json(json).unwrap();
    let s = match &v {
        JsonValue::Str(s) => s.clone(),
        other => panic!("expected a JSON string, got {:?}", other),
    };
    assert_eq!(ApiErrorType::from_wire(s.as_str()), ApiErrorType::Unauthenticated);
}

#[test]
fn client_test_item() {
    let json = r#"{
            "id": 1,
            "name": "Wooden Stick",
            "type": "Weapon",
            "description": "",
            "equipable": "1",
            "level": 1,
            "rarity": "Common",
            "value": 20,
            "stat1": "str",
            "stat1modifier": 1,
            "stat2": null,
            "stat2modifier": 0,
            "stat3": null,
            "stat3modifier": null,
            "custom_item": 0,
            "tradable": 1,
            "locked": 0
        }"#;
    decode_response::<Item>(json, "test-url").unwrap();
}

#[test]
fn unauthenticated_envelope_for_any_type() {
    let json = r#"{"error":"unauthenticated"}"#;
    assert!(matches!(
        decode_response::<Item>(json, "u"),
        Err(SmmoError::ApiError { error: ApiErrorType::Unauthenticated }),
    ));
}

#[test]
fn unrecognised_error_string_is_preserved() {
    let json = r#"{"error":"server exploded"}"#;
    match decode_response::<Item>(json, "u") {
        Err(SmmoError::ApiError { error: ApiErrorType::Unrecognized(s) }) => {
            assert_eq!(s, "server exploded");
        },
        other => panic!("expected an unrecognised API error, got {:?}", other),
    }
}

#[test]
fn malformed_body_keeps_the_raw_text() {
    let body = r#"{"id": 1, "name": "Woo"#;
    match decode_response::<Item>(body, "https://api.simple-mmo.com/v1/item/info/1") {
        Err(SmmoError::JsonDecodeError { raw_body, url, expected_type }) => {
            assert_eq!(raw_body, body);
            assert_eq!(url, "https://api.simple-mmo.com/v1/item/info/1");
            assert_eq!(expected_type, "Item");
        },
        other => panic!("expected a decode error, got {:?}", other),
    }
}

#[test]
fn wrong_shape_is_a_decode_error_not_an_api_error() {
    let body = r#"{"unexpected": true}"#;
    match decode_response::<Orphanage>(body, "u") {
        Err(SmmoError::JsonDecodeError { raw_body, expected_type, .. }) => {
            assert_eq!(raw_body, body);
            assert_eq!(expected_type, "Orphanage");
        },
        other => panic!("expected a decode error, got {:?}", other),
    }
}

#[test]
fn decode_error_display_names_url_body_and_type() {
    let e = SmmoError::JsonDecodeError {
        raw_body: "oops".to_string(),
        url: "http://x".to_string(),
        expected_type: "Item",
    };
    assert_eq!(
        e.display_string(),
        "JSON decode error.\nURL: `http://x`\nJSON received from the api: ```oops```\nExpected type: Item\n"
    );
}
