use protocol_executor::cli::{Mode, Protocol};
use protocol_executor::executor::{Context, ExecutionResult};
use protocol_executor::middleware::external::{
    name_for_path, name_or_unknown, ExternalMiddleware, ExternalMiddlewareConfig,
    ExternalMiddlewareError, MetadataUpdate, MiddlewareResponse, RequestMetadata,
};
use protocol_executor::strmap::StrMap;

fn context() -> Context {
    let mut metadata = StrMap::new();
    metadata.insert("user".to_string(), "alice".to_string());
    Context {
        mode: Mode::Single,
        path: String::new(),
        protocol: Protocol::Http,
        target: "http://x".to_string(),
        payload: None,
        headers: Vec::new(),
        timeout: 30,
        retry_count: 0,
        metadata,
        variables: StrMap::new(),
        step_list: Vec::new(),
    }
}

fn response(should_continue: bool) -> MiddlewareResponse {
    MiddlewareResponse {
        action: "before".to_string(),
        execution_id: "00000000-0000-0000-0000-000000000000".to_string(),
        should_continue,
        modified_payload: None,
        modified_headers: None,
        modified_metadata: None,
        error_message: None,
        metrics: None,
    }
}

#[test]
fn names_come_from_the_file_stem() {
    assert_eq!(name_for_path("/opt/mw/formatter.exe"), "formatter");
    assert_eq!(name_for_path("mw/archive.tar.gz"), "archive.tar");
    assert_eq!(name_for_path("/"), "unknown");
    assert_eq!(name_or_unknown(None), "unknown");
    assert_eq!(name_or_unknown(Some("x".to_string())), "x");
    let m = ExternalMiddleware::new("middlewares/response_formatter".to_string());
    assert_eq!(m.name(), "response_formatter");
    assert!(m.config().is_none());
    assert_eq!(m.settings().path, "middlewares/response_formatter");
    assert_eq!(m.settings().timeout_secs, 30);
}

#[test]
fn builders_change_the_settings() {
    let m = ExternalMiddleware::from_stem("a/b.sh".to_string(), Some("b".to_string()))
        .with_timeout(5)
        .with_args(vec!["--pretty".to_string()]);
    assert_eq!(m.name(), "b");
    assert_eq!(m.settings().timeout_secs, 5);
    assert_eq!(m.settings().args, vec!["--pretty".to_string()]);
    let m = m.with_config(ExternalMiddlewareConfig::new("c".to_string()));
    assert_eq!(m.settings().path, "c");
    assert_eq!(m.settings().timeout_secs, 30);
    assert!(m.settings().args.is_empty());
    let d = ExternalMiddlewareConfig::default();
    assert_eq!(d.path, "");
    assert_eq!(d.timeout_secs, 30);
    assert!(d.working_dir.is_none());
}

#[test]
fn before_request_carries_the_metadata() {
    let m = ExternalMiddleware::new("x/fmt".to_string());
    let r = m.before_request(&context(), "t0".to_string());
    assert_eq!(r.action, "before");
    assert_eq!(r.execution_id, "00000000-0000-0000-0000-000000000000");
    assert_eq!(r.protocol, "");
    assert_eq!(r.target, "");
    assert!(r.payload.is_none());
    assert_eq!(r.timestamp, "t0");
    match r.metadata {
        RequestMetadata::Entries(e) => assert_eq!(e.get("user"), Some(&"alice".to_string())),
        _ => panic!("expected the context's metadata"),
    }
}

#[test]
fn after_request_encodes_the_data() {
    let m = ExternalMiddleware::new("x/fmt".to_string());
    let result = ExecutionResult {
        success: true,
        status: "200 OK".to_string(),
        data: b"hello".to_vec(),
        duration: 2_750_000_000,
        metadata: StrMap::new(),
    };
    let r = m.after_request(&result, &context(), "t1".to_string());
    assert_eq!(r.action, "after");
    assert_eq!(r.payload, Some("aGVsbG8".to_string()));
    match r.metadata {
        RequestMetadata::Outcome { original_metadata, success, status, duration_ms } => {
            assert_eq!(original_metadata.get("user"), Some(&"alice".to_string()));
            assert!(success);
            assert_eq!(status, "200 OK");
            assert_eq!(duration_ms, 2750);
        }
        _ => panic!("expected the outcome"),
    }
    let empty = ExecutionResult { data: Vec::new(), ..result };
    let prepared = m.prepare_after(&empty, &context());
    assert!(prepared.payload.is_none());
    assert!(chrono::DateTime::parse_from_rfc3339(&prepared.timestamp).is_ok());
    let prepared = m.prepare_before(&context());
    assert!(chrono::DateTime::parse_from_rfc3339(&prepared.timestamp).is_ok());
}

#[test]
fn output_checks() {
    let m = ExternalMiddleware::new("x/fmt".to_string());
    let req = m.before_request(&context(), "t".to_string());
    match ExternalMiddleware::check_output(&req, false, "boom".to_string(), Ok(response(true))) {
        Err(ExternalMiddlewareError::ExecutionFailed(e)) => assert_eq!(e, "boom"),
        _ => panic!("a failed program is an execution failure"),
    }
    match ExternalMiddleware::check_output(&req, true, String::new(), Err("eof".to_string())) {
        Err(ExternalMiddlewareError::ParseError(e)) => assert_eq!(e, "eof"),
        _ => panic!("an unreadable answer is a parse error"),
    }
    let mut other = response(true);
    other.execution_id = "other".to_string();
    match ExternalMiddleware::check_output(&req, true, String::new(), Ok(other)) {
        Err(ExternalMiddlewareError::ParseError(e)) => assert_eq!(e, "Execution ID mismatch"),
        _ => panic!("an answer for another execution is refused"),
    }
    assert!(ExternalMiddleware::check_output(&req, true, String::new(), Ok(response(true))).is_ok());
}

#[test]
fn rejection_blocks_and_leaves_the_context() {
    let m = ExternalMiddleware::new("x/fmt".to_string());
    let mut c = context();
    let mut r = response(false);
    r.error_message = Some("no".to_string());
    match m.apply_before(&mut c, r) {
        Err(ExternalMiddlewareError::Rejected(e)) => assert_eq!(e, "no"),
        _ => panic!("expected a rejection"),
    }
    assert_eq!(c.metadata.len(), 1);
}

#[test]
fn accepted_before_merges_metadata() {
    let m = ExternalMiddleware::new("x/fmt".to_string());
    let mut c = context();
    let mut update = StrMap::new();
    update.insert("user".to_string(), "bob".to_string());
    update.insert("role".to_string(), "admin".to_string());
    let mut r = response(true);
    r.modified_metadata = Some(MetadataUpdate::Entries(update));
    assert!(m.apply_before(&mut c, r).is_ok());
    assert_eq!(c.metadata.get("user"), Some(&"bob".to_string()));
    assert_eq!(c.metadata.get("role"), Some(&"admin".to_string()));
    assert_eq!(
        c.metadata.get("fmt_execution_id"),
        Some(&"00000000-0000-0000-0000-000000000000".to_string())
    );
    let mut c = context();
    let mut r = response(true);
    r.modified_metadata = Some(MetadataUpdate::Unusable);
    assert!(m.apply_before(&mut c, r).is_ok());
    assert_eq!(c.metadata.len(), 2);
}

#[test]
fn after_answer_rewrites_the_result() {
    let m = ExternalMiddleware::new("x/fmt".to_string());
    let mut result = ExecutionResult {
        success: true,
        status: "200 OK".to_string(),
        data: b"raw".to_vec(),
        duration: 0,
        metadata: StrMap::new(),
    };
    let mut r = response(true);
    r.modified_payload = Some("hi".to_string());
    r.metrics = Some("{\"processed\":true}".to_string());
    assert!(m.apply_after(&mut result, r).is_ok());
    assert_eq!(result.data, b"aGk".to_vec());
    assert_eq!(result.metadata.get("fmt_metrics"), Some(&"{\"processed\":true}".to_string()));
    let mut r = response(true);
    r.modified_payload = None;
    assert!(m.apply_after(&mut result, r).is_ok());
    assert_eq!(result.data, b"aGk".to_vec());
}

#[test]
fn after_rejection_blocks_and_leaves_the_result() {
    let m = ExternalMiddleware::new("x/fmt".to_string());
    let mut result = ExecutionResult {
        success: true,
        status: "200 OK".to_string(),
        data: b"raw".to_vec(),
        duration: 0,
        metadata: StrMap::new(),
    };
    let mut r = response(false);
    r.modified_payload = Some("hi".to_string());
    r.metrics = Some("{}".to_string());
    r.error_message = Some("stop".to_string());
    match m.apply_after(&mut result, r) {
        Err(e) => assert_eq!(e.hook_message(), "Middleware rejected request: stop"),
        Ok(()) => panic!("expected a rejection"),
    }
    assert_eq!(result.data, b"raw".to_vec());
    assert_eq!(result.metadata.len(), 0);
    assert_eq!(ExternalMiddlewareError::Io("x".to_string()).hook_message(), "IO error: x");
}

#[test]
fn error_messages() {
    assert_eq!(ExternalMiddlewareError::Timeout(30).message(), "Middleware timeout after 30 seconds");
    assert_eq!(
        ExternalMiddlewareError::ExecutionFailed("x".to_string()).message(),
        "Middleware execution failed: x"
    );
    assert_eq!(
        ExternalMiddlewareError::Rejected("y".to_string()).message(),
        "Middleware rejected the request: y"
    );
}

#[test]
fn plain_path_names() {
    assert_eq!(name_for_path("a/b/"), "b");
    assert_eq!(name_for_path("a/b/."), "b");
    assert_eq!(name_for_path("a/.."), "unknown");
    assert_eq!(name_for_path(".hidden"), ".hidden");
    assert_eq!(name_for_path("dir/name."), "name");
    assert_eq!(name_for_path("x/..."), "..");
}
