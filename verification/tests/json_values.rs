//! The JSON reader: documents, numbers kept as tokens, and the integer
//! readers that succeed exactly on in-range integer tokens.

use fronius::json::{JsonNumber, JsonValue};
use fronius::parse::parse_json;
use fronius::DecodeError;

fn num(text: &str) -> JsonNumber {
    JsonNumber { text: text.to_string() }
}

#[test]
fn parses_scalars() {
    assert_eq!(parse_json("null"), Ok(JsonValue::Null));
    assert_eq!(parse_json(" true "), Ok(JsonValue::Bool(true)));
    assert_eq!(parse_json("false"), Ok(JsonValue::Bool(false)));
    assert_eq!(parse_json("\"hi\""), Ok(JsonValue::Str("hi".to_string())));
    assert_eq!(parse_json("1500"), Ok(JsonValue::Num(num("1500"))));
}

#[test]
fn parses_number_tokens_without_coercion() {
    assert_eq!(parse_json("-12.5e3"), Ok(JsonValue::Num(num("-12.5e3"))));
    assert_eq!(parse_json("0.25"), Ok(JsonValue::Num(num("0.25"))));
    assert_eq!(parse_json("-0"), Ok(JsonValue::Num(num("-0"))));
}

#[test]
fn parses_nested_structures() {
    let v = parse_json("{\"a\": [1, {\"b\": null}], \"c\": \"x\"}").unwrap();
    let expected = JsonValue::Obj(vec![
        (
            "a".to_string(),
            JsonValue::Arr(vec![
                JsonValue::Num(num("1")),
                JsonValue::Obj(vec![("b".to_string(), JsonValue::Null)]),
            ]),
        ),
        ("c".to_string(), JsonValue::Str("x".to_string())),
    ]);
    assert_eq!(v, expected);
}

#[test]
fn parses_string_escapes() {
    let v = parse_json("\"a\\n\\t\\\"\\\\\\u0041\"").unwrap();
    assert_eq!(v, JsonValue::Str("a\n\t\"\\A".to_string()));
}

#[test]
fn parses_surrogate_pair_escapes() {
    let v = parse_json("\"\\uD83D\\uDE00\"").unwrap();
    assert_eq!(v, JsonValue::Str("\u{1F600}".to_string()));
}

#[test]
fn rejects_lone_surrogate_escape() {
    assert!(matches!(parse_json("\"\\uD83D\""), Err(DecodeError::Syntax { .. })));
}

#[test]
fn rejects_malformed_documents() {
    assert!(matches!(parse_json(""), Err(DecodeError::Syntax { .. })));
    assert!(matches!(parse_json("{"), Err(DecodeError::Syntax { .. })));
    assert!(matches!(parse_json("1.2.3"), Err(DecodeError::Syntax { .. })));
    assert!(matches!(parse_json("01"), Err(DecodeError::Syntax { .. })));
    assert!(matches!(parse_json("{\"a\":}"), Err(DecodeError::Syntax { .. })));
    assert!(matches!(parse_json("[1,]"), Err(DecodeError::Syntax { .. })));
    assert!(matches!(parse_json("nul"), Err(DecodeError::Syntax { .. })));
    assert!(matches!(parse_json("1 2"), Err(DecodeError::Syntax { .. })));
}

#[test]
fn integer_reader_reads_exact_values() {
    assert_eq!(num("1500").as_i64(), Some(1500));
    assert_eq!(num("-42").as_i64(), Some(-42));
    assert_eq!(num("0").as_u64(), Some(0));
    assert_eq!(num("-0").as_u64(), Some(0));
    assert_eq!(num("255").as_u8(), Some(255));
    assert_eq!(num("256").as_u8(), None);
}

#[test]
fn integer_reader_handles_the_type_bounds() {
    assert_eq!(num("9223372036854775807").as_i64(), Some(i64::MAX));
    assert_eq!(num("9223372036854775808").as_i64(), None);
    assert_eq!(num("9223372036854775808").as_u64(), Some(9223372036854775808));
    assert_eq!(num("-9223372036854775808").as_i64(), Some(i64::MIN));
    assert_eq!(num("-9223372036854775809").as_i64(), None);
    assert_eq!(num("18446744073709551615").as_u64(), Some(u64::MAX));
    assert_eq!(num("18446744073709551616").as_u64(), None);
}

#[test]
fn integer_reader_refuses_non_integer_tokens() {
    assert_eq!(num("1.5").as_i64(), None);
    assert_eq!(num("1e3").as_i64(), None);
    assert_eq!(num("-1").as_u64(), None);
    assert_eq!(num("").as_i64(), None);
    assert_eq!(num("-").as_i64(), None);
}

#[test]
fn field_lookup_takes_the_first_entry_of_a_key() {
    let v = parse_json("{\"a\":1,\"a\":2}").unwrap();
    match fronius::json::get_field(&v, "a") {
        Some(JsonValue::Num(n)) => assert_eq!(n.text, "1"),
        other => panic!("expected the first entry, got {:?}", other),
    }
}
