use kiro_provider::classify::{
    classify, document_names_monthly_limit, is_monthly_request_limit, is_success, Outcome,
    MONTHLY_REQUEST_COUNT,
};
use kiro_provider::provider::KiroProvider;
use kiro_provider::text::{chars_of, contains_text, decimal_text, join};

#[test]
fn test_is_monthly_request_limit_detects_reason() {
    let body = r#"{"message":"You have reached the limit.","reason":"MONTHLY_REQUEST_COUNT"}"#;
    assert!(KiroProvider::is_monthly_request_limit(body));
}

#[test]
fn test_is_monthly_request_limit_nested_reason() {
    let body = r#"{"error":{"reason":"MONTHLY_REQUEST_COUNT"}}"#;
    assert!(KiroProvider::is_monthly_request_limit(body));
}

#[test]
fn test_is_monthly_request_limit_false() {
    let body = r#"{"message":"nope","reason":"DAILY_REQUEST_COUNT"}"#;
    assert!(!KiroProvider::is_monthly_request_limit(body));
}

#[test]
fn marker_is_the_reason_of_the_service() {
    assert_eq!(MONTHLY_REQUEST_COUNT, "MONTHLY_REQUEST_COUNT");
}

#[test]
fn empty_body_is_not_monthly() {
    assert!(!is_monthly_request_limit(""));
}

#[test]
fn marker_anywhere_in_plain_text_is_monthly() {
    assert!(is_monthly_request_limit("MONTHLY_REQUEST_COUNT"));
    assert!(is_monthly_request_limit("quota: MONTHLY_REQUEST_COUNT reached"));
    assert!(is_monthly_request_limit("<html>MONTHLY_REQUEST_COUNT"));
    assert!(is_monthly_request_limit("额度 MONTHLY_REQUEST_COUNT 用尽"));
}

#[test]
fn near_markers_are_not_monthly() {
    assert!(!is_monthly_request_limit("MONTHLY_REQUEST_COUN"));
    assert!(!is_monthly_request_limit("monthly_request_count"));
    assert!(!is_monthly_request_limit("MONTHLY REQUEST COUNT"));
    assert!(!is_monthly_request_limit("not json at all"));
    assert!(!is_monthly_request_limit("{\"reason\":12}"));
    assert!(!is_monthly_request_limit("[1,2,3]"));
    assert!(!is_monthly_request_limit("{\"error\":\"reason\"}"));
}

#[test]
fn escaped_marker_is_found_through_json_alone() {
    // The text holds no marker: its first letter is written as an escape.
    let top = "{\"reason\":\"\\u004dONTHLY_REQUEST_COUNT\"}";
    assert!(!top.contains("MONTHLY_REQUEST_COUNT"));
    assert!(is_monthly_request_limit(top));
    let nested = "{\"error\":{\"reason\":\"\\u004dONTHLY_REQUEST_COUNT\"}}";
    assert!(is_monthly_request_limit(nested));
    let other = "{\"error\":{\"reason\":\"\\u0044AILY_REQUEST_COUNT\"}}";
    assert!(!is_monthly_request_limit(other));
    let deeper = "{\"error\":{\"detail\":{\"reason\":\"\\u004dONTHLY_REQUEST_COUNT\"}}}";
    assert!(!is_monthly_request_limit(deeper));
    let in_array = "[{\"reason\":\"\\u004dONTHLY_REQUEST_COUNT\"}]";
    assert!(!is_monthly_request_limit(in_array));
    let broken = "{\"reason\":\"\\u004dONTHLY_REQUEST_COUNT\"";
    assert!(!is_monthly_request_limit(broken));
}

#[test]
fn parsed_document_is_read_by_its_members() {
    let top = serde_json::Value::Object(
        [(
            "reason".to_string(),
            serde_json::Value::String("MONTHLY_REQUEST_COUNT".to_string()),
        )]
        .into_iter()
        .collect(),
    );
    assert!(document_names_monthly_limit(&top));
    let nested = serde_json::Value::Object(
        [("error".to_string(), top.clone())].into_iter().collect(),
    );
    assert!(document_names_monthly_limit(&nested));
    let twice = serde_json::Value::Object(
        [("error".to_string(), nested.clone())].into_iter().collect(),
    );
    assert!(!document_names_monthly_limit(&twice));
    let other = serde_json::Value::Object(
        [(
            "reason".to_string(),
            serde_json::Value::String("DAILY_REQUEST_COUNT".to_string()),
        )]
        .into_iter()
        .collect(),
    );
    assert!(!document_names_monthly_limit(&other));
    assert!(!document_names_monthly_limit(&serde_json::Value::Null));
    assert!(!document_names_monthly_limit(&serde_json::Value::String(
        "MONTHLY_REQUEST_COUNT".to_string()
    )));
    assert!(!document_names_monthly_limit(&serde_json::Value::Array(vec![top])));
}

#[test]
fn success_is_two_hundred_to_two_ninety_nine() {
    assert!(!is_success(199));
    assert!(is_success(200));
    assert!(is_success(204));
    assert!(is_success(299));
    assert!(!is_success(300));
    assert_eq!(classify(200, "MONTHLY_REQUEST_COUNT"), Outcome::Success);
    assert_eq!(classify(299, ""), Outcome::Success);
}

#[test]
fn status_table() {
    assert_eq!(classify(400, ""), Outcome::BadRequest);
    assert_eq!(classify(400, "MONTHLY_REQUEST_COUNT"), Outcome::BadRequest);
    assert_eq!(classify(401, ""), Outcome::AuthFailure);
    assert_eq!(classify(403, "forbidden"), Outcome::AuthFailure);
    assert_eq!(classify(403, "MONTHLY_REQUEST_COUNT"), Outcome::AuthFailure);
    assert_eq!(classify(408, ""), Outcome::Transient);
    assert_eq!(classify(429, "slow down"), Outcome::Transient);
    assert_eq!(classify(500, ""), Outcome::Transient);
    assert_eq!(classify(503, ""), Outcome::Transient);
    assert_eq!(classify(599, ""), Outcome::Transient);
    assert_eq!(classify(404, ""), Outcome::OtherClient);
    assert_eq!(classify(409, ""), Outcome::OtherClient);
    assert_eq!(classify(499, ""), Outcome::OtherClient);
    assert_eq!(classify(100, ""), Outcome::Unknown);
    assert_eq!(classify(301, ""), Outcome::Unknown);
    assert_eq!(classify(399, ""), Outcome::Unknown);
    assert_eq!(classify(600, ""), Outcome::Unknown);
    assert_eq!(classify(0, ""), Outcome::Unknown);
    assert_eq!(classify(u16::MAX, ""), Outcome::Unknown);
}

#[test]
fn payment_required_depends_on_the_body() {
    assert_eq!(
        classify(402, "{\"reason\":\"MONTHLY_REQUEST_COUNT\"}"),
        Outcome::QuotaExhausted
    );
    assert_eq!(
        classify(402, "{\"error\":{\"reason\":\"\\u004dONTHLY_REQUEST_COUNT\"}}"),
        Outcome::QuotaExhausted
    );
    assert_eq!(classify(402, "{\"reason\":\"DAILY_REQUEST_COUNT\"}"), Outcome::OtherClient);
    assert_eq!(classify(402, ""), Outcome::OtherClient);
}

#[test]
fn substring_search() {
    assert!(contains_text("abc", ""));
    assert!(contains_text("", ""));
    assert!(!contains_text("", "a"));
    assert!(contains_text("abc", "abc"));
    assert!(contains_text("abc", "a"));
    assert!(contains_text("abc", "c"));
    assert!(contains_text("abc", "bc"));
    assert!(!contains_text("abc", "abcd"));
    assert!(!contains_text("abc", "ac"));
    assert!(contains_text("aab", "ab"));
    assert!(contains_text("所有凭据已用尽", "凭据"));
    assert!(!contains_text("所有凭据已用尽", "据凭"));
}

#[test]
fn characters_of_a_text() {
    assert_eq!(chars_of(""), Vec::<char>::new());
    assert_eq!(chars_of("a凭b"), vec!['a', '凭', 'b']);
}

#[test]
fn decimal_numerals() {
    assert_eq!(decimal_text(0), "0");
    assert_eq!(decimal_text(7), "7");
    assert_eq!(decimal_text(10), "10");
    assert_eq!(decimal_text(402), "402");
    assert_eq!(decimal_text(1234567890), "1234567890");
    assert_eq!(decimal_text(u64::MAX), "18446744073709551615");
}

#[test]
fn joined_text() {
    assert_eq!(join(String::from("ab"), "cd"), "abcd");
    assert_eq!(join(String::new(), ""), "");
}
