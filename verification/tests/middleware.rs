use protocol_executor::cli::{Mode, Protocol};
use protocol_executor::executor::enums::protocol::ProtocolEnum;
use protocol_executor::executor::protocol::BaseProtocol;
use protocol_executor::executor::{Context, ExecutionResult};
use protocol_executor::middleware::builtin::logger::LoggerMiddleware;
use protocol_executor::middleware::builtin::metrics::MetricsMiddleware;
use protocol_executor::middleware::builtin::single_transfer::SingleTransferMiddleware;
use protocol_executor::middleware::builtin::validator::ValidatorMiddleware;
use protocol_executor::strmap::StrMap;
use protocol_executor::yaml::YamlValue;

fn context(protocol: Protocol, target: &str, timeout: u64) -> Context {
    Context {
        mode: Mode::Single,
        path: "examples/http.yaml".to_string(),
        protocol,
        target: target.to_string(),
        payload: None,
        headers: Vec::new(),
        timeout,
        retry_count: 0,
        metadata: StrMap::new(),
        variables: StrMap::new(),
        step_list: Vec::new(),
    }
}

fn result(data: Vec<u8>, success: bool) -> ExecutionResult {
    ExecutionResult {
        success,
        status: "200 OK".to_string(),
        data,
        duration: 1_500_000,
        metadata: StrMap::new(),
    }
}

#[test]
fn validator_accepts_matching_targets() {
    let v = ValidatorMiddleware::new();
    let mut c = context(Protocol::Https, "https://example.org", 0);
    assert_eq!(v.before_execute(&mut c), Ok(()));
    assert_eq!(c.timeout, 30);
    let mut c = context(Protocol::Wss, "wss://echo", 12);
    assert_eq!(v.before_execute(&mut c), Ok(()));
    assert_eq!(c.timeout, 12);
    let mut c = context(Protocol::Tcp, "localhost:80", 0);
    assert_eq!(v.before_execute(&mut c), Ok(()));
    assert_eq!(c.timeout, 30);
}

#[test]
fn validator_refuses_bad_targets() {
    let v = ValidatorMiddleware::new();
    let mut c = context(Protocol::Http, "", 0);
    assert_eq!(v.before_execute(&mut c), Err("Target URL cannot be empty".to_string()));
    assert_eq!(c.timeout, 0);
    let mut c = context(Protocol::Http, "ftp://x", 0);
    assert_eq!(v.before_execute(&mut c), Err("Invalid HTTP URL: ftp://x".to_string()));
    assert_eq!(c.timeout, 0);
    let mut c = context(Protocol::Ws, "http://x", 0);
    assert_eq!(v.before_execute(&mut c), Err("Invalid WebSocket URL: http://x".to_string()));
}

#[test]
fn registered_validator_checks_nothing_before() {
    let v = ValidatorMiddleware::new();
    let mut c = context(Protocol::Http, "", 0);
    assert_eq!(v.before(&mut c), Ok(()));
    assert_eq!(c.timeout, 0);
}

#[test]
fn validator_reports_large_responses() {
    let v = ValidatorMiddleware::new();
    assert!(!v.after_execute(&result(vec![0; 10], true)));
    assert!(!v.after(&result(vec![0; 10 * 1024 * 1024], true)));
    assert!(v.after(&result(vec![0; 10 * 1024 * 1024 + 1], true)));
}

#[test]
fn metrics_stamp_the_context() {
    let m = MetricsMiddleware::new();
    let mut c = context(Protocol::Http, "http://x", 0);
    c.metadata.insert("keep".to_string(), "me".to_string());
    assert_eq!(m.before(&mut c), Ok(()));
    assert_eq!(c.metadata.get("request_id"), Some(&"00000000-0000-0000-0000-000000000000".to_string()));
    assert!(c.metadata.get("start_time").is_some());
    assert_eq!(c.metadata.get("keep"), Some(&"me".to_string()));
    MetricsMiddleware::record_start(&mut c, "2024-01-01T00:00:00Z".to_string());
    assert_eq!(c.metadata.get("start_time"), Some(&"2024-01-01T00:00:00Z".to_string()));
}

#[test]
fn metrics_record_the_outcome() {
    let mut r = result(vec![1, 2, 3], false);
    MetricsMiddleware::record_outcome(&mut r, Some(-7));
    assert_eq!(r.metadata.get("total_duration_ms"), Some(&"-7".to_string()));
    assert_eq!(r.metadata.get("response_size_bytes"), Some(&"3".to_string()));
    assert_eq!(r.metadata.get("success"), Some(&"false".to_string()));
    let mut r = result(Vec::new(), true);
    MetricsMiddleware::record_outcome(&mut r, None);
    assert_eq!(r.metadata.get("total_duration_ms"), None);
    assert_eq!(r.metadata.get("response_size_bytes"), Some(&"0".to_string()));
    assert_eq!(r.metadata.get("success"), Some(&"true".to_string()));
}

#[test]
fn metrics_after_measures_only_a_valid_start() {
    let m = MetricsMiddleware::new();
    let mut c = context(Protocol::Http, "http://x", 0);
    let mut r = result(vec![9; 12], true);
    assert_eq!(m.after(&mut r, &c), Ok(()));
    assert_eq!(r.metadata.get("total_duration_ms"), None);
    assert_eq!(r.metadata.get("response_size_bytes"), Some(&"12".to_string()));
    c.metadata.insert("start_time".to_string(), "not a time".to_string());
    let mut r = result(Vec::new(), true);
    assert_eq!(m.after_execute(&mut r, &c), Ok(()));
    assert_eq!(r.metadata.get("total_duration_ms"), None);
    c.metadata.insert("start_time".to_string(), "2020-01-01T00:00:00+00:00".to_string());
    let mut r = result(Vec::new(), true);
    assert_eq!(m.after(&mut r, &c), Ok(()));
    let ms: i64 = r.metadata.get("total_duration_ms").unwrap().parse().unwrap();
    assert!(ms > 0);
}

#[test]
fn single_transfer_collects_the_step() {
    let s = SingleTransferMiddleware::new();
    let mut c = context(Protocol::Http, "http://x", 0);
    let step = BaseProtocol {
        variables: StrMap::new(),
        meta: StrMap::new(),
        protocol: ProtocolEnum::Http,
        data: YamlValue(serde_yaml::Value::Null),
    };
    assert_eq!(s.accept_step(&mut c, Ok(step)), Ok(()));
    assert_eq!(c.step_list.len(), 1);
    assert_eq!(
        s.accept_step(&mut c, Err("bad yaml".to_string())),
        Err("Failed to parse request: bad yaml".to_string())
    );
    assert_eq!(c.step_list.len(), 1);
    assert_eq!(s.name(), "single transfer");
}

#[test]
fn builtin_names_and_settings() {
    let mut settings = StrMap::new();
    settings.insert("level".to_string(), "debug".to_string());
    let l = LoggerMiddleware::new().create(Some(settings));
    assert_eq!(l.name(), "logger");
    assert_eq!(l.config().unwrap().get("level"), Some(&"debug".to_string()));
    assert!(LoggerMiddleware::new().config().is_none());
    assert_eq!(ValidatorMiddleware::new().name(), "validator");
    assert_eq!(MetricsMiddleware::new().name(), "metrics");
}

#[test]
fn only_http_steps_carry_http_data() {
    let step = |protocol| BaseProtocol {
        variables: StrMap::new(),
        meta: StrMap::new(),
        protocol,
        data: YamlValue(serde_yaml::Value::Null),
    };
    assert!(step(ProtocolEnum::Http).carries_http_data());
    assert!(step(ProtocolEnum::Https).carries_http_data());
    assert!(!step(ProtocolEnum::Ws).carries_http_data());
    assert!(!step(ProtocolEnum::Tcp).carries_http_data());
}

#[test]
fn metrics_before_then_after_records_the_duration() {
    let m = MetricsMiddleware::new();
    let mut c = context(Protocol::Http, "http://x", 0);
    assert_eq!(m.before_execute(&mut c), Ok(()));
    let stamp = c.metadata.get("start_time").unwrap().clone();
    assert!(chrono::DateTime::parse_from_rfc3339(&stamp).is_ok());
    let mut r = result(vec![1], true);
    assert_eq!(m.after_execute(&mut r, &c), Ok(()));
    let ms: i64 = r.metadata.get("total_duration_ms").unwrap().parse().unwrap();
    assert!(ms >= 0);
    assert_eq!(r.metadata.get("response_size_bytes"), Some(&"1".to_string()));
    assert_eq!(r.metadata.get("success"), Some(&"true".to_string()));
}
