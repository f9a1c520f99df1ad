//! Executors: the context a request runs in, its result, and the chain of
//! middlewares around it.
pub mod base;
pub mod enums;
pub mod http;
pub mod mode;
pub mod protocol;
pub mod websocket;

use crate::cli::{Mode, Protocol};
use crate::config::{is_chain_for, Config, MiddlewareConfig};
use crate::executor::mode::{assemble_chain, assembled_chain, names_fit};
use crate::middleware::MiddlewareKind;
use crate::executor::enums::protocol::ProtocolEnum;
use crate::executor::http::HttpExecutor;
use crate::executor::protocol::BaseProtocol;
use crate::executor::websocket::WebSocketExecutor;
use crate::middleware::registry::MiddlewareRegistry;
use crate::strmap::StrMap;
use crate::text::join;
use vstd::prelude::*;
use vstd::string::*;

verus! {

/// What a request runs with, and what middlewares may read and change.
pub struct Context {
    pub mode: Mode,
    /// Path of the request file.
    pub path: String,
    pub protocol: Protocol,
    /// Target URL or address.
    pub target: String,
    pub payload: Option<String>,
    pub headers: Vec<(String, String)>,
    /// Timeout in seconds.
    pub timeout: u64,
    pub retry_count: u32,
    pub metadata: StrMap<String>,
    pub variables: StrMap<String>,
    pub step_list: Vec<BaseProtocol>,
}

/// The outcome of running a request.
pub struct ExecutionResult {
    pub success: bool,
    pub status: String,
    pub data: Vec<u8>,
    /// How long the request took, in nanoseconds.
    pub duration: u128,
    pub metadata: StrMap<String>,
}

/// The executor for one protocol.
pub enum ProtocolExecutor {
    Http(HttpExecutor),
    WebSocket(WebSocketExecutor),
}

impl ProtocolExecutor {
    /// The middleware chain the executor runs.
    pub open spec fn chain_view(&self) -> Seq<(MiddlewareKind, u32)> {
        match self {
            ProtocolExecutor::Http(e) => e.base()@,
            ProtocolExecutor::WebSocket(e) => e.base()@,
        }
    }
}

/// Makes executors for protocols.
pub struct ExecutorFactory {
    middleware_registry: MiddlewareRegistry,
    config: Config,
}

/// The message given for a protocol that has no executor.
pub open spec fn unsupported_message(protocol: ProtocolEnum) -> Seq<char> {
    "Protocol not supported: "@ + protocol.debug_name()
}

fn debug_name(protocol: ProtocolEnum) -> (s: String)
    ensures
        s@ == protocol.debug_name(),
{
    match protocol {
        ProtocolEnum::Http => String::from_str("Http"),
        ProtocolEnum::Https => String::from_str("Https"),
        ProtocolEnum::WebSocket => String::from_str("WebSocket"),
        ProtocolEnum::Ws => String::from_str("Ws"),
        ProtocolEnum::Wss => String::from_str("Wss"),
        ProtocolEnum::Tcp => String::from_str("Tcp"),
        ProtocolEnum::Udp => String::from_str("Udp"),
    }
}

impl ExecutorFactory {
    /// A factory over the given registry and configuration.
    pub fn new(middleware_registry: MiddlewareRegistry, config: Config) -> (f: Self)
        ensures
            f.registry() == middleware_registry,
            f.config() == config,
    {
        ExecutorFactory { middleware_registry, config }
    }

    /// The registry the factory draws middlewares from.
    pub closed spec fn registry(&self) -> MiddlewareRegistry {
        self.middleware_registry
    }

    /// The configuration the factory was made with.
    pub closed spec fn config(&self) -> Config {
        self.config
    }

    /// An executor for `protocol`, running the chain that the configuration
    /// gives for the protocol's name, made as `assemble_chain` makes it:
    /// HTTP for `Http` and `Https`, WebSocket for `WebSocket`, `Ws` and `Wss`;
    /// other protocols are refused.
    pub fn create_executor(&self, protocol: &ProtocolEnum) -> (r: Result<ProtocolExecutor, String>)
        ensures
            match *protocol {
                ProtocolEnum::Http | ProtocolEnum::Https => r matches Ok(ProtocolExecutor::Http(e))
                    && e.request_timeout_secs() == 30,
                ProtocolEnum::WebSocket | ProtocolEnum::Ws | ProtocolEnum::Wss => r matches Ok(
                    ProtocolExecutor::WebSocket(_),
                ),
                _ => r matches Err(m) && m@ == unsupported_message(*protocol),
            },
            r matches Ok(e) ==> exists|items: Seq<MiddlewareConfig>, names: Seq<(Seq<char>, Seq<char>)>|
                {
                    &&& is_chain_for(self.config(), protocol.spec_config_name(), items)
                    &&& names_fit(self.registry().external_paths(), items, names)
                    &&& e.chain_view() == assembled_chain(
                        self.registry().builtins(),
                        self.registry().external_paths(),
                        items,
                        names,
                    )
                },
    {
        let protocol_name = protocol.config_name();
        let middleware_chain = self.config.get_middleware_chain(protocol_name.as_str());
        let base_executor = assemble_chain(&self.middleware_registry, &middleware_chain);
        let ghost names = choose|names: Seq<(Seq<char>, Seq<char>)>|
            names_fit(self.middleware_registry.external_paths(), middleware_chain@, names)
                && base_executor@ == assembled_chain(
                self.middleware_registry.builtins(),
                self.middleware_registry.external_paths(),
                middleware_chain@,
                names,
            );
        assert(is_chain_for(self.config(), protocol.spec_config_name(), middleware_chain@));
        assert(names_fit(self.registry().external_paths(), middleware_chain@, names));
        match protocol {
            ProtocolEnum::Http | ProtocolEnum::Https => {
                Ok(ProtocolExecutor::Http(HttpExecutor::new(base_executor)))
            },
            ProtocolEnum::WebSocket | ProtocolEnum::Ws | ProtocolEnum::Wss => {
                Ok(ProtocolExecutor::WebSocket(WebSocketExecutor::new(base_executor)))
            },
            _ => {
                let name = debug_name(*protocol);
                Err(join("Protocol not supported: ", name.as_str()))
            },
        }
    }
}

} // verus!
