use protocol_executor::cli::Mode;
use protocol_executor::config::{Config, MiddlewareConfig, MiddlewareType};
use protocol_executor::executor::base::BaseExecutor;
use protocol_executor::executor::mode::{ModeFactory, ModeRunner};
use protocol_executor::middleware::registry::{
    is_executable_extension, is_executable_mode, MiddlewareRegistry,
};
use protocol_executor::middleware::{MiddlewareInstance, MiddlewareType as Named};
use protocol_executor::strmap::StrMap;

fn chain(e: &BaseExecutor) -> Vec<(String, u32)> {
    let mut out = Vec::new();
    for i in 0..e.len() {
        let (m, o) = e.middleware_at(i);
        let label = match m {
            MiddlewareInstance::External(x) => format!("external:{}", x.settings().path),
            other => other.name().to_string(),
        };
        out.push((label, o));
    }
    out
}

fn item(name: &str, kind: MiddlewareType, enabled: bool, order: Option<u32>) -> MiddlewareConfig {
    MiddlewareConfig { name: name.to_string(), middleware_type: kind, config: None, enabled, order }
}

#[test]
fn builtins_are_registered() {
    let r = MiddlewareRegistry::default();
    assert_eq!(r.get_builtin_middleware("logger").unwrap().name(), "logger");
    assert_eq!(r.get_builtin_middleware("validator").unwrap().name(), "validator");
    assert_eq!(r.get_builtin_middleware("metrics").unwrap().name(), "metrics");
    assert!(r.get_builtin_middleware("single transfer").is_none());
    assert!(MiddlewareRegistry::new().get_builtin_middleware("logger").is_none());
}

#[test]
fn external_programs_are_found_by_stem() {
    let mut r = MiddlewareRegistry::new();
    r.register_external_middleware("/opt/mw/formatter.sh".to_string());
    let m = r.get_external_middleware("formatter").unwrap();
    assert_eq!(m.settings().path, "/opt/mw/formatter.sh");
    assert!(r.get_external_middleware("formatter.sh").is_none());
    r.register_external_middleware("/other/formatter.py".to_string());
    assert_eq!(r.get_external_middleware("formatter").unwrap().settings().path, "/other/formatter.py");
}

#[test]
fn directory_registration_replaces_programs() {
    let mut r = MiddlewareRegistry::new();
    r.register_external_middleware("/old/legacy".to_string());
    r.register_external_middlewares(vec!["/d/a.sh".to_string(), "/d/b".to_string(), "/e/a.py".to_string()]);
    assert!(r.get_external_middleware("legacy").is_none());
    assert_eq!(r.get_external_middleware("a").unwrap().settings().path, "/e/a.py");
    assert_eq!(r.get_external_middleware("b").unwrap().settings().path, "/d/b");
    let mut named = MiddlewareRegistry::new();
    named.register_external_named(vec![("x".to_string(), "/p/x".to_string())]);
    assert_eq!(named.get_external_middleware("x").unwrap().settings().path, "/p/x");
}

#[test]
fn middleware_by_type() {
    let mut r = MiddlewareRegistry::default();
    r.register_external_middleware("/opt/fmt".to_string());
    assert_eq!(r.get_middleware(&Named::Builtin("metrics".to_string())).unwrap().name(), "metrics");
    assert!(r.get_middleware(&Named::External("/opt/fmt".to_string())).is_none());
    assert_eq!(r.get_middleware(&Named::External("fmt".to_string())).unwrap().name(), "fmt");
}

#[test]
fn names_list_builtins_then_externals() {
    let mut r = MiddlewareRegistry::default();
    r.register_external_middleware("/opt/fmt".to_string());
    assert_eq!(
        r.get_middleware_names(),
        vec![
            "builtin:logger".to_string(),
            "builtin:validator".to_string(),
            "builtin:metrics".to_string(),
            "external:fmt".to_string()
        ]
    );
}

#[test]
fn executable_checks() {
    assert!(is_executable_mode(Some(0o755)));
    assert!(is_executable_mode(Some(0o100)));
    assert!(!is_executable_mode(Some(0o644)));
    assert!(!is_executable_mode(None));
    assert!(is_executable_extension(Some("EXE")));
    assert!(is_executable_extension(Some("ps1")));
    assert!(is_executable_extension(Some("Cmd")));
    assert!(!is_executable_extension(Some("txt")));
    assert!(!is_executable_extension(None));
}

#[test]
fn mode_uses_the_default_chain() {
    let f = ModeFactory::new(MiddlewareRegistry::default(), Config::default());
    match f.create_mode(&Mode::Single) {
        Ok(ModeRunner::Single(m)) => {
            assert_eq!(m.chain().len(), 0);
            assert_eq!(m.mode(), "single");
            assert_eq!(m.start_result().status, "500");
        }
        _ => panic!("expected single mode"),
    }
    assert!(matches!(f.create_mode(&Mode::Workflow), Ok(ModeRunner::Workflow(_))));
}

#[test]
fn mode_chain_from_configuration() {
    let mut registry = MiddlewareRegistry::default();
    registry.register_external_middleware("/opt/mw/formatter.sh".to_string());
    let mut chains = StrMap::new();
    chains.insert(
        "single".to_string(),
        vec![
            item("metrics", MiddlewareType::Builtin("metrics".to_string()), true, None),
            item("validator", MiddlewareType::Builtin("validator".to_string()), false, Some(1)),
            item("nope", MiddlewareType::Builtin("nope".to_string()), true, Some(2)),
            item("fmt", MiddlewareType::External("elsewhere/formatter.exe".to_string()), true, Some(3)),
            item("logger", MiddlewareType::Builtin("logger".to_string()), true, Some(3)),
            item("missing", MiddlewareType::External("x/missing".to_string()), true, Some(0)),
        ],
    );
    let config = Config {
        default_timeout: 0,
        default_retry_count: 0,
        external_middleware_dir: None,
        middleware_chains: chains,
        protocols: StrMap::new(),
    };
    let f = ModeFactory::new(registry, config);
    let chain_of_single = f.build_chain(&f_items());
    assert_eq!(chain(&chain_of_single), vec![("logger".to_string(), 7)]);
    match f.create_mode(&Mode::Single) {
        Ok(ModeRunner::Single(m)) => assert_eq!(
            chain(m.chain()),
            vec![
                ("external:/opt/mw/formatter.sh".to_string(), 3),
                ("logger".to_string(), 3),
                ("metrics".to_string(), 100)
            ]
        ),
        _ => panic!("expected single mode"),
    }
}

fn f_items() -> Vec<MiddlewareConfig> {
    vec![item("logger", MiddlewareType::Builtin("logger".to_string()), true, Some(7))]
}
