//! The JSON layer itself: parsing, rendering, and their round trip.

use smmo_api::json::JsonValue;
use smmo_api::json_parse::parse_json;
use smmo_api::json_print::json_to_string;

#[test]
fn scalars_parse() {
    assert!(matches!(parse_json("null"), Some(JsonValue::Null)));
    assert!(matches!(parse_json("true"), Some(JsonValue::Bool(true))));
    assert!(matches!(parse_json("false"), Some(JsonValue::Bool(false))));
    assert!(matches!(parse_json("42"), Some(JsonValue::Int(42))));
    assert!(matches!(parse_json("-17"), Some(JsonValue::Int(-17))));
}

#[test]
fn strings_unescape() {
    match parse_json(r#""a\"b\\c\n\tAé""#) {
        Some(JsonValue::Str(s)) => assert_eq!(s, "a\"b\\c\n\tA\u{e9}"),
        other => panic!("expected a string, got {:?}", other),
    }
}

#[test]
fn surrogate_pairs_combine() {
    match parse_json(r#""𝄞""#) {
        Some(JsonValue::Str(s)) => assert_eq!(s, "\u{1d11e}"),
        other => panic!("expected a string, got {:?}", other),
    }
}

#[test]
fn lone_surrogate_is_rejected() {
    assert!(parse_json(r#""\ud834""#).is_none());
}

#[test]
fn non_integer_numbers_keep_their_lexeme() {
    match parse_json("3.25") {
        Some(JsonValue::NumberLexeme(s)) => assert_eq!(s, "3.25"),
        other => panic!("expected a number lexeme, got {:?}", other),
    }
    match parse_json("1e9") {
        Some(JsonValue::NumberLexeme(s)) => assert_eq!(s, "1e9"),
        other => panic!("expected a number lexeme, got {:?}", other),
    }
}

#[test]
fn leading_zeros_are_rejected() {
    assert!(parse_json("01").is_none());
    assert!(parse_json("-01").is_none());
    assert!(parse_json("0").is_some());
}

#[test]
fn truncated_documents_are_rejected() {
    assert!(parse_json(r#"{"a": 1"#).is_none());
    assert!(parse_json(r#"["#).is_none());
    assert!(parse_json(r#""unterminated"#).is_none());
    assert!(parse_json("").is_none());
    assert!(parse_json("1 2").is_none());
}

#[test]
fn nested_structures_parse() {
    let v = parse_json(r#" { "a" : [ 1 , { "b" : null } ] , "c" : "d" } "#).unwrap();
    let a = v.get("a").unwrap();
    match a {
        JsonValue::Arr(elems) => {
            assert_eq!(elems.len(), 2);
            assert!(matches!(elems[0], JsonValue::Int(1)));
            assert!(matches!(elems[1].get("b"), Some(JsonValue::Null)));
        },
        other => panic!("expected an array, got {:?}", other),
    }
}

#[test]
fn printing_then_parsing_returns_the_tree() {
    let text = r#"{"s":"a\"b\\c\n","n":-5,"x":3.25,"arr":[true,false,null],"o":{"k":"v"}}"#;
    let v = parse_json(text).unwrap();
    let printed = json_to_string(&v);
    assert_eq!(printed, text);
    let again = parse_json(printed.as_str()).unwrap();
    assert_eq!(json_to_string(&again), text);
}

#[test]
fn control_characters_print_escaped() {
    let s = json_to_string(&JsonValue::Str("\u{1}\n".to_string()));
    assert_eq!(s, r#""\u0001\n""#);
    let back = parse_json(s.as_str()).unwrap();
    match back {
        JsonValue::Str(t) => assert_eq!(t, "\u{1}\n"),
        other => panic!("expected a string, got {:?}", other),
    }
}

#[test]
fn nesting_beyond_the_limit_is_rejected() {
    let deep_ok = format!("{}1{}", "[".repeat(128), "]".repeat(128));
    assert!(parse_json(deep_ok.as_str()).is_some());
    let too_deep = format!("{}1{}", "[".repeat(129), "]".repeat(129));
    assert!(parse_json(too_deep.as_str()).is_none());
}
