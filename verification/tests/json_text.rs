//! JSON-carrying strings: wrapping, bytes, the ok/error result shape and
//! the string escaper.

use hc_core::error::HolochainError;
use hc_core::json::{escape_json_str, quote_json_str, JsonString, RawString};

#[test]
fn none_is_null() {
    assert_eq!(JsonString::none(), JsonString::from("null"));
}

#[test]
fn into_bytes_gives_utf8() {
    let json = JsonString::from("{\"a\":1}");
    assert_eq!(json.into_bytes(), b"{\"a\":1}".to_vec());
}

#[test]
fn wrapping_round_trip() {
    let json = JsonString::from_string("{\"a\":1}".to_string());
    assert_eq!(json.to_string(), "{\"a\":1}".to_string());
    assert_eq!(json.as_str(), "{\"a\":1}");
}

#[test]
fn from_result_tags_ok_and_error() {
    let ok: Result<JsonString, HolochainError> = Ok(JsonString::from("[1,2]"));
    assert_eq!(
        JsonString::from_result(&ok),
        JsonString::from("{\"ok\":[1,2]}")
    );

    let err: Result<JsonString, HolochainError> = Err(HolochainError::CapabilityCheckFailed);
    assert_eq!(
        JsonString::from_result(&err),
        JsonString::from("{\"error\":\"CapabilityCheckFailed\"}")
    );

    let err: Result<JsonString, HolochainError> =
        Err(HolochainError::ErrorGeneric("boom \"quoted\"".to_string()));
    assert_eq!(
        JsonString::from_result(&err),
        JsonString::from("{\"error\":{\"ErrorGeneric\":\"boom \\\"quoted\\\"\"}}")
    );
}

#[test]
fn error_json_shapes() {
    assert_eq!(
        HolochainError::DnaMissing.to_json(),
        JsonString::from("\"DnaMissing\"")
    );
    assert_eq!(
        HolochainError::Dna("Zome 'x' not found".to_string()).to_json(),
        JsonString::from("{\"Dna\":\"Zome 'x' not found\"}")
    );
    assert_eq!(
        HolochainError::ActionChannelClosed.to_json(),
        JsonString::from("\"ActionChannelClosed\"")
    );
}

#[test]
fn describe_gives_the_message() {
    assert_eq!(
        HolochainError::ErrorGeneric("boom".to_string()).describe(),
        "boom".to_string()
    );
    assert_eq!(
        HolochainError::CapabilityCheckFailed.describe(),
        "Capability check failed".to_string()
    );
}

#[test]
fn raw_string_renders_as_a_json_string_literal() {
    assert_eq!(RawString::from("foo").to_string(), "\"foo\"".to_string());
    assert_eq!(
        RawString::from("foo").to_json(),
        JsonString::from("\"foo\"")
    );
    assert_eq!(
        RawString::from_string("say \"hi\"".to_string()).to_string(),
        "\"say \\\"hi\\\"\"".to_string()
    );
}

#[test]
fn raw_string_round_trips_through_json() {
    for text in ["", "foo", "say \"hi\"", "a\\b", "line1\nline2", "tab\there"] {
        let raw = RawString::from(text);
        let parsed = RawString::from_json(&raw.to_json()).expect("literal must parse");
        assert_eq!(parsed, raw);
    }
}

#[test]
fn malformed_literals_do_not_parse() {
    assert_eq!(RawString::from_json(&JsonString::from("")), None);
    assert_eq!(RawString::from_json(&JsonString::from("\"")), None);
    assert_eq!(RawString::from_json(&JsonString::from("foo")), None);
    assert_eq!(RawString::from_json(&JsonString::from("\"unclosed")), None);
    // a lone backslash before the closing quote
    assert_eq!(RawString::from_json(&JsonString::from("\"a\\\"")), None);
    // an unknown escape code
    assert_eq!(RawString::from_json(&JsonString::from("\"a\\qb\"")), None);
    // a bare quote inside the body
    assert_eq!(RawString::from_json(&JsonString::from("\"a\"b\"")), None);
}

#[test]
fn escaping_handles_quotes_backslashes_and_controls() {
    assert_eq!(escape_json_str("plain"), "plain".to_string());
    assert_eq!(escape_json_str("a\"b"), "a\\\"b".to_string());
    assert_eq!(escape_json_str("a\\b"), "a\\\\b".to_string());
    assert_eq!(escape_json_str("line1\nline2"), "line1\\nline2".to_string());
    assert_eq!(escape_json_str("a\rb\tc"), "a\\rb\\tc".to_string());
    assert_eq!(quote_json_str("say \"hi\""), "\"say \\\"hi\\\"\"".to_string());
    assert_eq!(quote_json_str(""), "\"\"".to_string());
}
