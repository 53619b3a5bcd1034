//! The lenient field decoders, exercised through parsed JSON documents.

use smmo_api::custom_serde::date_time_option::{
    deserialize_option_datefmt, serialize_option_datefmt,
};
use smmo_api::custom_serde::{bool_from_int, bool_from_int_str, empty_string_option, ok_or_default};
use smmo_api::datetime::UtcDateTime;
use smmo_api::json::JsonValue;
use smmo_api::json_parse::parse_json;

fn str_field(doc: &str, key: &str) -> String {
    let v = parse_json(doc).unwrap();
    match v.get(key) {
        Some(JsonValue::Str(s)) => s.clone(),
        other => panic!("expected a string field, got {:?}", other),
    }
}

#[test]
fn test_0_to_false() {
    let s = str_field(r#"{ "test": "0" }"#, "test");
    assert_eq!(bool_from_int_str::deserialize(s.as_str()).unwrap(), false);
}

#[test]
fn test_1_to_true() {
    let s = str_field(r#"{ "test": "1" }"#, "test");
    assert_eq!(bool_from_int_str::deserialize(s.as_str()).unwrap(), true);
}

#[test]
fn test_failure() {
    let s = str_field(r#"{ "test": "3" }"#, "test");
    assert!(bool_from_int_str::deserialize(s.as_str()).is_err());
}

#[test]
fn invalid_value_names_the_string() {
    let e = bool_from_int_str::deserialize("maybe").unwrap_err();
    assert_eq!(e.value, "maybe");
    assert_eq!(e.expected, "zero or one");
}

#[test]
fn int_bool_accepts_zero_and_one_only() {
    assert_eq!(bool_from_int::deserialize(0).unwrap(), false);
    assert_eq!(bool_from_int::deserialize(1).unwrap(), true);
    let e = bool_from_int::deserialize(7).unwrap_err();
    assert_eq!(e.value, "7");
    assert_eq!(e.expected, "zero or one");
}

#[test]
fn empty_string_is_absent() {
    assert_eq!(empty_string_option::deserialize(""), None);
    assert_eq!(empty_string_option::deserialize("hello"), Some("hello".to_string()));
}

#[test]
fn test_successful() {
    let v = parse_json(r#"{ "test": 1 }"#).unwrap();
    let f = v.get("test").unwrap();
    assert_eq!(ok_or_default::u8_option_or_default(f), Some(1));
}

#[test]
fn test_null_to_none() {
    let v = parse_json(r#"{ "test": null }"#).unwrap();
    let f = v.get("test").unwrap();
    assert_eq!(ok_or_default::u8_option_or_default(f), None);
}

#[test]
fn test_unsuccessfull_to_none() {
    let v = parse_json(r#"{ "test": "whoops" }"#).unwrap();
    let f = v.get("test").unwrap();
    assert_eq!(ok_or_default::u8_option_or_default(f), None);
}

#[test]
fn test_missing_fails() {
    let v = parse_json(r#"{}"#).unwrap();
    assert!(v.get("test").is_none());
}

#[test]
fn u32_or_default_keeps_good_values_and_defaults_bad_ones() {
    let v = parse_json(r#"{ "a": 17, "b": "junk", "c": null, "d": -3, "e": 4294967296 }"#).unwrap();
    assert_eq!(ok_or_default::u32_or_default(v.get("a").unwrap()), 17);
    assert_eq!(ok_or_default::u32_or_default(v.get("b").unwrap()), 0);
    assert_eq!(ok_or_default::u32_or_default(v.get("c").unwrap()), 0);
    assert_eq!(ok_or_default::u32_or_default(v.get("d").unwrap()), 0);
    assert_eq!(ok_or_default::u32_or_default(v.get("e").unwrap()), 0);
}

#[test]
fn optional_datefmt_field_decodes() {
    let v = parse_json(r#"{ "a": "2021-07-10 22:33:59", "b": null, "c": "nonsense", "d": 5 }"#)
        .unwrap();
    let dt = UtcDateTime { year: 2021, month: 7, day: 10, hour: 22, minute: 33, second: 59 };
    assert_eq!(deserialize_option_datefmt(v.get("a").unwrap()).unwrap(), Some(dt));
    assert_eq!(deserialize_option_datefmt(v.get("b").unwrap()).unwrap(), None);
    assert!(deserialize_option_datefmt(v.get("c").unwrap()).is_err());
    assert!(deserialize_option_datefmt(v.get("d").unwrap()).is_err());
    assert_eq!(serialize_option_datefmt(&dt), "2021-07-10T22:33:59+00:00");
}
