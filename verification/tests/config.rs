use protocol_executor::config::{Config, MiddlewareConfig, MiddlewareType};
use protocol_executor::strmap::StrMap;

fn is_builtin(c: &MiddlewareConfig, name: &str, order: u32) -> bool {
    c.name == name
        && matches!(&c.middleware_type, MiddlewareType::Builtin(n) if n == name)
        && c.config.is_none()
        && c.enabled
        && c.order == Some(order)
}

#[test]
fn default_chain_for_http() {
    let config = Config::default();
    let chain = config.get_middleware_chain("https");
    assert_eq!(chain.len(), 2);
    assert!(is_builtin(&chain[0], "logger", 1));
    assert!(is_builtin(&chain[1], "validator", 2));
}

#[test]
fn default_chain_for_websocket() {
    let config = Config::default();
    let chain = config.get_middleware_chain("wss");
    assert_eq!(chain.len(), 1);
    assert!(is_builtin(&chain[0], "logger", 1));
}

#[test]
fn default_chain_for_other_protocols_is_empty() {
    let config = Config::default();
    assert!(config.get_middleware_chain("tcp").is_empty());
    assert!(config.get_middleware_chain("single").is_empty());
}

#[test]
fn configured_chain_is_returned() {
    let mut chains = StrMap::new();
    chains.insert(
        "http".to_string(),
        vec![MiddlewareConfig {
            name: "response_formatter".to_string(),
            middleware_type: MiddlewareType::External("middlewares/response_formatter".to_string()),
            config: None,
            enabled: false,
            order: Some(100),
        }],
    );
    let config = Config {
        default_timeout: 30,
        default_retry_count: 2,
        external_middleware_dir: None,
        middleware_chains: chains,
        protocols: StrMap::new(),
    };
    let chain = config.get_middleware_chain("http");
    assert_eq!(chain.len(), 1);
    assert_eq!(chain[0].name, "response_formatter");
    assert!(!chain[0].enabled);
    assert_eq!(chain[0].order, Some(100));
}

#[test]
fn default_config_is_empty() {
    let config = Config::default();
    assert_eq!(config.default_timeout, 0);
    assert_eq!(config.default_retry_count, 0);
    assert!(config.external_middleware_dir.is_none());
    assert_eq!(config.middleware_chains.len(), 0);
    assert_eq!(config.protocols.len(), 0);
}

#[test]
fn configured_settings_are_copied_whole() {
    let settings: serde_yaml::Value = serde_yaml::from_str("level: debug\nlimit: 3").unwrap();
    let mut chains = StrMap::new();
    chains.insert(
        "ws".to_string(),
        vec![MiddlewareConfig {
            name: "logger".to_string(),
            middleware_type: MiddlewareType::Builtin("logger".to_string()),
            config: Some(protocol_executor::yaml::YamlValue(settings.clone())),
            enabled: true,
            order: None,
        }],
    );
    let config = Config {
        default_timeout: 0,
        default_retry_count: 0,
        external_middleware_dir: None,
        middleware_chains: chains,
        protocols: StrMap::new(),
    };
    let chain = config.get_middleware_chain("ws");
    assert_eq!(chain.len(), 1);
    assert_eq!(chain[0].config.as_ref().map(|v| v.0.clone()), Some(settings));
    assert_eq!(chain[0].order, None);
}
