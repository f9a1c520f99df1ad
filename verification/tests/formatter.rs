use protocol_executor::formatter::{
    format_json_response, format_json_with_stamp, parse_failure_response, respond,
};

#[test]
fn non_json_payload_is_unchanged() {
    assert_eq!(format_json_response("plain text"), "plain text");
    assert_eq!(format_json_response("{broken"), "{broken");
}

#[test]
fn json_object_is_marked_and_pretty_printed() {
    let out = format_json_response("{\"a\":1}");
    let v: serde_json::Value = serde_json::from_str(&out).unwrap();
    assert_eq!(v["a"], 1);
    assert_eq!(v["_formatted"], "pretty-printed-by-middleware");
    assert!(v["_format_timestamp"].is_string());
    let stamp = v["_format_timestamp"].as_str().unwrap();
    assert!(chrono::DateTime::parse_from_rfc3339(stamp).is_ok());
    assert!(out.contains('\n'));
    assert_eq!(format_json_response("[1,2]"), "[\n  1,\n  2\n]");
}

#[test]
fn before_marks_the_request() {
    let r = respond("before".to_string(), "id".to_string(), None);
    assert_eq!(r.action, "before");
    assert_eq!(r.execution_id, "id");
    assert!(r.should_continue);
    assert_eq!(r.modified_headers, Some(vec![("X-Formatted-By".to_string(), "response_formatter".to_string())]));
    assert_eq!(r.metrics, Some("{\"action\":\"before\",\"formatter_version\":\"1.0\"}".to_string()));
}

#[test]
fn after_formats_the_payload() {
    let r = respond("after".to_string(), "id".to_string(), Some("not json".to_string()));
    assert_eq!(r.action, "after");
    assert!(r.should_continue);
    assert_eq!(r.modified_payload, Some("not json".to_string()));
    assert_eq!(
        r.metrics,
        Some("{\"action\":\"after\",\"formatter_version\":\"1.0\",\"processed\":true}".to_string())
    );
    let big = format!("[{}]", "1,".repeat(600_000) + "1");
    let r = respond("after".to_string(), "id".to_string(), Some(big.clone()));
    assert_eq!(r.modified_payload, Some(big));
    let r = respond("after".to_string(), "id".to_string(), None);
    assert!(r.modified_payload.is_none());
}

#[test]
fn unknown_action_is_refused() {
    let r = respond("sideways".to_string(), "id".to_string(), None);
    assert_eq!(r.action, "sideways");
    assert!(!r.should_continue);
    assert_eq!(r.error_message, Some("Unknown action: ".to_string()));
    assert!(r.metrics.is_none());
}

#[test]
fn unreadable_request_answer() {
    let r = parse_failure_response("EOF");
    assert_eq!(r.action, "error");
    assert_eq!(r.execution_id, "unknown");
    assert!(!r.should_continue);
    assert_eq!(r.error_message, Some("Failed to parse request: EOF".to_string()));
}

#[test]
fn formatting_with_a_given_stamp() {
    assert_eq!(
        format_json_with_stamp("{\"a\":1}", "T"),
        "{\n  \"_format_timestamp\": \"T\",\n  \"_formatted\": \"pretty-printed-by-middleware\",\n  \"a\": 1\n}"
    );
    assert_eq!(format_json_with_stamp("not json", "T"), "not json");
    assert_eq!(format_json_with_stamp("\"s\"", "T"), "\"s\"");
    let floats = format_json_with_stamp("[0.1, 1e-7, 123456789.123456789]", "T");
    let expected: serde_json::Value = serde_json::from_str("[0.1, 1e-7, 123456789.123456789]").unwrap();
    assert_eq!(floats, serde_json::to_string_pretty(&expected).unwrap());
}
