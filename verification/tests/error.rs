use protocol_executor::error::Error;

#[test]
fn error_messages_name_their_kind() {
    assert_eq!(Error::Config("bad".to_string()).message(), "Configuration error: bad");
    assert_eq!(Error::Yaml("tab".to_string()).message(), "YAML parsing error: tab");
    assert_eq!(Error::Other("x".to_string()).message(), "Other error: x");
}
