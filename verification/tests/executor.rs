use protocol_executor::cli::{Mode, Protocol};
use protocol_executor::executor::base::{BaseExecutor, ChainStep};
use protocol_executor::executor::enums::protocol::ProtocolEnum;
use protocol_executor::executor::http::HttpExecutor;
use protocol_executor::executor::mode::single::initial_result;
use protocol_executor::executor::mode::workflow::WorkflowMode;
use protocol_executor::executor::websocket::{WebSocketExecutor, WsReply};
use protocol_executor::executor::{Context, ExecutorFactory, ProtocolExecutor};
use protocol_executor::config::Config;
use protocol_executor::middleware::builtin::logger::LoggerMiddleware;
use protocol_executor::middleware::builtin::metrics::MetricsMiddleware;
use protocol_executor::middleware::builtin::validator::ValidatorMiddleware;
use protocol_executor::middleware::registry::MiddlewareRegistry;
use protocol_executor::middleware::MiddlewareInstance;
use protocol_executor::strmap::StrMap;

fn names_and_orders(e: &BaseExecutor) -> Vec<(String, u32)> {
    let mut out = Vec::new();
    for i in 0..e.len() {
        let (m, o) = e.middleware_at(i);
        out.push((m.name().to_string(), o));
    }
    out
}

fn context() -> Context {
    Context {
        mode: Mode::Single,
        path: String::new(),
        protocol: Protocol::Http,
        target: "http://localhost".to_string(),
        payload: Some("ping".to_string()),
        headers: Vec::new(),
        timeout: 0,
        retry_count: 0,
        metadata: StrMap::new(),
        variables: StrMap::new(),
        step_list: Vec::new(),
    }
}

#[test]
fn middlewares_run_in_ascending_order() {
    let e = BaseExecutor::new()
        .with_middleware(MiddlewareInstance::Metrics(MetricsMiddleware::new()), 5)
        .with_middleware(MiddlewareInstance::Logger(LoggerMiddleware::new()), 1)
        .with_middleware(MiddlewareInstance::Validator(ValidatorMiddleware::new()), 3);
    assert_eq!(
        names_and_orders(&e),
        vec![("logger".to_string(), 1), ("validator".to_string(), 3), ("metrics".to_string(), 5)]
    );
}

#[test]
fn equal_orders_keep_insertion_order() {
    let e = BaseExecutor::new()
        .with_middleware(MiddlewareInstance::Validator(ValidatorMiddleware::new()), 2)
        .with_middleware(MiddlewareInstance::Logger(LoggerMiddleware::new()), 2)
        .with_middleware(MiddlewareInstance::Metrics(MetricsMiddleware::new()), 1);
    assert_eq!(
        names_and_orders(&e),
        vec![("metrics".to_string(), 1), ("validator".to_string(), 2), ("logger".to_string(), 2)]
    );
}

#[test]
fn chain_run_stops_at_first_failure() {
    let e = BaseExecutor::new()
        .with_middleware(MiddlewareInstance::Logger(LoggerMiddleware::new()), 1)
        .with_middleware(MiddlewareInstance::Validator(ValidatorMiddleware::new()), 2)
        .with_middleware(MiddlewareInstance::Metrics(MetricsMiddleware::new()), 3);
    let mut run = e.start_chain();
    assert!(matches!(run.step(), ChainStep::Invoke(0)));
    run.record(Ok(()));
    assert!(matches!(run.step(), ChainStep::Invoke(1)));
    run.record(Err("bad target".to_string()));
    match run.step() {
        ChainStep::Finished(Err(e)) => assert_eq!(e, "bad target"),
        _ => panic!("the run should have stopped"),
    }
}

#[test]
fn chain_run_succeeds_when_every_hook_does() {
    let e = BaseExecutor::new()
        .with_middleware(MiddlewareInstance::Logger(LoggerMiddleware::new()), 1);
    let mut run = e.start_chain();
    assert!(matches!(run.step(), ChainStep::Invoke(0)));
    run.record(Ok(()));
    assert!(matches!(run.step(), ChainStep::Finished(Ok(()))));
    let empty = BaseExecutor::new();
    assert!(matches!(empty.start_chain().step(), ChainStep::Finished(Ok(()))));
}

#[test]
fn merge_metadata_prefers_additional() {
    let e = BaseExecutor::default();
    let mut base = StrMap::new();
    base.insert("a".to_string(), "1".to_string());
    base.insert("b".to_string(), "2".to_string());
    let mut more = StrMap::new();
    more.insert("b".to_string(), "3".to_string());
    e.merge_metadata(&mut base, &more);
    assert_eq!(base.get("a"), Some(&"1".to_string()));
    assert_eq!(base.get("b"), Some(&"3".to_string()));
}

#[test]
fn factory_makes_executors_by_protocol() {
    let f = ExecutorFactory::new(MiddlewareRegistry::default(), Config::default());
    match f.create_executor(&ProtocolEnum::Https) {
        Ok(ProtocolExecutor::Http(h)) => {
            assert_eq!(h.timeout_secs(), 30);
            assert_eq!(
                names_and_orders(h.chain()),
                vec![("logger".to_string(), 1), ("validator".to_string(), 2)]
            );
            assert_eq!(h.name(), "http_executor");
        }
        _ => panic!("expected an HTTP executor"),
    }
    match f.create_executor(&ProtocolEnum::Ws) {
        Ok(ProtocolExecutor::WebSocket(w)) => {
            assert_eq!(names_and_orders(w.chain()), vec![("logger".to_string(), 1)]);
        }
        _ => panic!("expected a WebSocket executor"),
    }
    match f.create_executor(&ProtocolEnum::WebSocket) {
        Ok(ProtocolExecutor::WebSocket(w)) => assert_eq!(w.chain().len(), 0),
        _ => panic!("expected a WebSocket executor"),
    }
    let bare = ExecutorFactory::new(MiddlewareRegistry::new(), Config::default());
    match bare.create_executor(&ProtocolEnum::Http) {
        Ok(ProtocolExecutor::Http(h)) => assert_eq!(h.chain().len(), 0),
        _ => panic!("expected an HTTP executor"),
    }
    match f.create_executor(&ProtocolEnum::Tcp) {
        Err(m) => assert_eq!(m, "Protocol not supported: Tcp"),
        Ok(_) => panic!("tcp has no executor"),
    }
    match f.create_executor(&ProtocolEnum::Udp) {
        Err(m) => assert_eq!(m, "Protocol not supported: Udp"),
        Ok(_) => panic!("udp has no executor"),
    }
}

#[test]
fn http_result_from_response() {
    let mut headers = StrMap::new();
    headers.insert("content-type".to_string(), "text/plain".to_string());
    let r = HttpExecutor::result_from_response(204, "204 No Content".to_string(), headers, vec![1, 2], 5);
    assert!(r.success);
    assert_eq!(r.status, "204 No Content");
    assert_eq!(r.data, vec![1, 2]);
    assert_eq!(r.duration, 5);
    assert_eq!(r.metadata.get("content-type"), Some(&"text/plain".to_string()));
    let r = HttpExecutor::result_from_response(404, "404 Not Found".to_string(), StrMap::new(), Vec::new(), 0);
    assert!(!r.success);
    let r = HttpExecutor::result_from_response(300, "300".to_string(), StrMap::new(), Vec::new(), 0);
    assert!(!r.success);
    let r = HttpExecutor::result_from_response(200, "200 OK".to_string(), StrMap::new(), Vec::new(), 0);
    assert!(r.success);
}

#[test]
fn websocket_replies() {
    let r = WebSocketExecutor::result_from_reply(WsReply::Text("hé".to_string()), 9).unwrap();
    assert!(r.success);
    assert_eq!(r.status, "connected");
    assert_eq!(r.data, "hé".as_bytes().to_vec());
    assert_eq!(r.metadata.get("protocol"), Some(&"websocket".to_string()));
    let r = WebSocketExecutor::result_from_reply(WsReply::Binary(vec![0, 255]), 0).unwrap();
    assert_eq!(r.data, vec![0, 255]);
    let r = WebSocketExecutor::result_from_reply(WsReply::Control, 0).unwrap();
    assert!(r.data.is_empty());
    let r = WebSocketExecutor::result_from_reply(WsReply::Nothing, 0).unwrap();
    assert!(r.data.is_empty());
    match WebSocketExecutor::result_from_reply(WsReply::Failed("reset".to_string()), 0) {
        Err(m) => assert_eq!(m, "WebSocket error: reset"),
        Ok(_) => panic!("a failed read is an error"),
    }
    assert_eq!(WebSocketExecutor::outgoing_message(&context()), Some("ping".to_string()));
    let w = WebSocketExecutor::new(BaseExecutor::new());
    assert_eq!(w.name(), "websocket_executor");
}

#[test]
fn workflow_returns_initial_result() {
    let w = WorkflowMode::new(BaseExecutor::new());
    let r = w.execute(context()).unwrap();
    assert!(r.success);
    assert_eq!(r.status, "500");
    assert!(r.data.is_empty());
    assert_eq!(r.duration, 0);
    assert_eq!(r.metadata.len(), 0);
    assert_eq!(w.mode(), "workflow");
    let i = initial_result();
    assert_eq!(i.status, "500");
}

#[test]
fn http_request_uses_target_headers_and_payload() {
    let mut c = context();
    c.headers = vec![("Accept".to_string(), "application/json".to_string())];
    let plan = HttpExecutor::request_for(&c);
    assert_eq!(plan.method, "GET");
    assert_eq!(plan.url, "http://localhost");
    assert_eq!(plan.headers, c.headers);
    assert_eq!(plan.body, Some("ping".to_string()));
    assert_eq!(ProtocolEnum::WebSocket.config_name(), "websocket");
}
