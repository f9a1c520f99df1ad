use protocol_executor::cli::{parse_header, Mode};

#[test]
fn header_splits_at_first_equals_sign() {
    assert_eq!(parse_header("Accept=application/json"), Ok(("Accept".to_string(), "application/json".to_string())));
    assert_eq!(parse_header("a=b=c"), Ok(("a".to_string(), "b=c".to_string())));
    assert_eq!(parse_header("=x"), Ok(("".to_string(), "x".to_string())));
    assert_eq!(parse_header("k="), Ok(("k".to_string(), "".to_string())));
}

#[test]
fn header_without_equals_sign_is_refused() {
    assert_eq!(parse_header("novalue"), Err("Header must be in format key=value".to_string()));
    assert_eq!(parse_header(""), Err("Header must be in format key=value".to_string()));
}

#[test]
fn header_roundtrip() {
    let key = "X-Trace";
    let value = "a=1;b=2";
    let (k, v) = parse_header(&format!("{}={}", key, value)).unwrap();
    assert_eq!(k, key);
    assert_eq!(v, value);
}

#[test]
fn mode_names() {
    assert_eq!(Mode::Single.name(), "single");
    assert_eq!(Mode::Workflow.name(), "workflow");
}
