//! The executor's configuration: defaults, middleware chains per protocol or
//! mode, and per-protocol options.
use crate::strmap::StrMap;
use crate::text::{has_prefix, starts_with};
use crate::yaml::YamlValue;
use vstd::prelude::*;
use vstd::string::*;

verus! {

/// The executor's configuration.
pub struct Config {
    /// Default timeout for all executors
    pub default_timeout: u64,
    /// Default retry count
    pub default_retry_count: u32,
    /// Directory containing external middleware executables
    pub external_middleware_dir: Option<String>,
    /// Pre-configured middleware chains for different protocols
    pub middleware_chains: StrMap<Vec<MiddlewareConfig>>,
    /// Protocol-specific configurations
    pub protocols: StrMap<ProtocolConfig>,
}

/// One entry of a middleware chain.
pub struct MiddlewareConfig {
    pub name: String,
    /// Which middleware this entry names (`type` in the configuration file).
    pub middleware_type: MiddlewareType,
    pub config: Option<YamlValue>,
    pub enabled: bool,
    pub order: Option<u32>,
}

/// A middleware named in a chain: built in, by name, or external, by path.
pub enum MiddlewareType {
    Builtin(String),
    External(String),
}

/// Options that apply to one protocol.
pub struct ProtocolConfig {
    pub default_headers: Option<StrMap<String>>,
    pub default_options: Option<StrMap<String>>,
}

impl View for MiddlewareConfig {
    type V = MiddlewareConfig;

    open spec fn view(&self) -> MiddlewareConfig {
        *self
    }
}

impl View for ProtocolConfig {
    type V = ProtocolConfig;

    open spec fn view(&self) -> ProtocolConfig {
        *self
    }
}

impl MiddlewareType {
    /// A copy of the value.
    pub fn duplicate(&self) -> (r: Self)
        ensures
            r == *self,
    {
        match self {
            MiddlewareType::Builtin(name) => MiddlewareType::Builtin(name.clone()),
            MiddlewareType::External(path) => MiddlewareType::External(path.clone()),
        }
    }
}

impl MiddlewareConfig {
    /// A copy of the entry.
    pub fn duplicate(&self) -> (r: Self)
        ensures
            r == *self,
    {
        let config = match &self.config {
            Some(v) => Some(v.duplicate()),
            None => None,
        };
        MiddlewareConfig {
            name: self.name.clone(),
            middleware_type: self.middleware_type.duplicate(),
            config,
            enabled: self.enabled,
            order: self.order,
        }
    }

    /// The enabled built-in entry `name` with the given order and no configuration.
    pub open spec fn is_default_builtin(self, name: Seq<char>, order: u32) -> bool {
        &&& self.name@ == name
        &&& self.middleware_type matches MiddlewareType::Builtin(n) && n@ == name
        &&& self.config is None
        &&& self.enabled
        &&& self.order == Some(order)
    }

    fn default_builtin(name: &str, order: u32) -> (r: Self)
        ensures
            r.is_default_builtin(name@, order),
    {
        MiddlewareConfig {
            name: String::from_str(name),
            middleware_type: MiddlewareType::Builtin(String::from_str(name)),
            config: None,
            enabled: true,
            order: Some(order),
        }
    }
}

/// Copies a list of chain entries.
pub fn duplicate_chain(chain: &Vec<MiddlewareConfig>) -> (r: Vec<MiddlewareConfig>)
    ensures
        r@ == chain@,
{
    let mut r: Vec<MiddlewareConfig> = Vec::new();
    for i in 0..chain.len()
        invariant
            r@.len() == i,
            forall|j: int| 0 <= j < i ==> #[trigger] r@[j] == chain@[j],
    {
        r.push(chain[i].duplicate());
    }
    assert(r@ =~= chain@);
    r
}

/// The chain used for a protocol that the configuration does not name:
/// logger then validator for protocols starting with `http`, the logger
/// alone for those starting with `ws`, and nothing otherwise.
pub open spec fn is_default_chain(chain: Seq<MiddlewareConfig>, protocol: Seq<char>) -> bool {
    if has_prefix(protocol, "http"@) {
        &&& chain.len() == 2
        &&& chain[0].is_default_builtin("logger"@, 1)
        &&& chain[1].is_default_builtin("validator"@, 2)
    } else if has_prefix(protocol, "ws"@) {
        &&& chain.len() == 1
        &&& chain[0].is_default_builtin("logger"@, 1)
    } else {
        chain.len() == 0
    }
}

/// The default chain by the protocol's first letters: `h`, `t`, `t`, `p`
/// (so `http`, `https` and the like) give the logger at order 1 then the
/// validator at order 2; otherwise `w`, `s` (`ws`, `wss`, `websocket`) give
/// the logger alone at order 1; any other protocol gives no middleware.
pub proof fn lemma_default_chain_by_prefix(chain: Seq<MiddlewareConfig>, protocol: Seq<char>)
    requires
        is_default_chain(chain, protocol),
    ensures
        (protocol.len() >= 4 && protocol[0] == 'h' && protocol[1] == 't' && protocol[2] == 't'
            && protocol[3] == 'p') ==> {
            &&& chain.len() == 2
            &&& chain[0].is_default_builtin("logger"@, 1)
            &&& chain[1].is_default_builtin("validator"@, 2)
        },
        !(protocol.len() >= 4 && protocol[0] == 'h' && protocol[1] == 't' && protocol[2] == 't'
            && protocol[3] == 'p') && (protocol.len() >= 2 && protocol[0] == 'w' && protocol[1]
            == 's') ==> {
            &&& chain.len() == 1
            &&& chain[0].is_default_builtin("logger"@, 1)
        },
        !(protocol.len() >= 4 && protocol[0] == 'h' && protocol[1] == 't' && protocol[2] == 't'
            && protocol[3] == 'p') && !(protocol.len() >= 2 && protocol[0] == 'w' && protocol[1]
            == 's') ==> chain.len() == 0,
{
    reveal_strlit("http");
    reveal_strlit("ws");
    let starts_http = protocol.len() >= 4 && protocol[0] == 'h' && protocol[1] == 't'
        && protocol[2] == 't' && protocol[3] == 'p';
    let starts_ws = protocol.len() >= 2 && protocol[0] == 'w' && protocol[1] == 's';
    if starts_http {
        assert(protocol.subrange(0, 4) =~= "http"@);
    } else if has_prefix(protocol, "http"@) {
        assert(protocol.subrange(0, 4)[0] == protocol[0]);
        assert(protocol.subrange(0, 4)[1] == protocol[1]);
        assert(protocol.subrange(0, 4)[2] == protocol[2]);
        assert(protocol.subrange(0, 4)[3] == protocol[3]);
    }
    if starts_ws {
        assert(protocol.subrange(0, 2) =~= "ws"@);
    } else if has_prefix(protocol, "ws"@) {
        assert(protocol.subrange(0, 2)[0] == protocol[0]);
        assert(protocol.subrange(0, 2)[1] == protocol[1]);
    }
}

/// `items` is the chain that `config` gives for `key`: the configured one,
/// or the default one when the configuration names none.
pub open spec fn is_chain_for(config: Config, key: Seq<char>, items: Seq<MiddlewareConfig>) -> bool {
    &&& config.middleware_chains@.contains_key(key) ==> items == config.middleware_chains@[key]
    &&& !config.middleware_chains@.contains_key(key) ==> is_default_chain(items, key)
}

impl Config {
    /// The middleware chain for `protocol`: the configured one, or the default.
    pub fn get_middleware_chain(&self, protocol: &str) -> (r: Vec<MiddlewareConfig>)
        ensures
            self.middleware_chains@.contains_key(protocol@) ==> r@
                == self.middleware_chains@[protocol@],
            !self.middleware_chains@.contains_key(protocol@) ==> is_default_chain(r@, protocol@),
            !self.middleware_chains@.contains_key(protocol@) && (protocol@.len() >= 4 && protocol@[0]
                == 'h' && protocol@[1] == 't' && protocol@[2] == 't' && protocol@[3] == 'p') ==> {
                &&& r@.len() == 2
                &&& r@[0].is_default_builtin("logger"@, 1)
                &&& r@[1].is_default_builtin("validator"@, 2)
            },
    {
        match self.middleware_chains.get(protocol) {
            Some(chain) => duplicate_chain(chain),
            None => {
                let mut default_chain: Vec<MiddlewareConfig> = Vec::new();
                if starts_with(protocol, "http") {
                    default_chain.push(MiddlewareConfig::default_builtin("logger", 1));
                    default_chain.push(MiddlewareConfig::default_builtin("validator", 2));
                } else if starts_with(protocol, "ws") {
                    default_chain.push(MiddlewareConfig::default_builtin("logger", 1));
                }
                proof {
                    lemma_default_chain_by_prefix(default_chain@, protocol@);
                }
                default_chain
            },
        }
    }
}

impl Default for Config {
    fn default() -> (c: Self)
        ensures
            c.default_timeout == 0,
            c.default_retry_count == 0,
            c.external_middleware_dir is None,
            c.middleware_chains@ == Map::<Seq<char>, Seq<MiddlewareConfig>>::empty(),
            c.protocols@ == Map::<Seq<char>, ProtocolConfig>::empty(),
    {
        Config {
            default_timeout: 0,
            default_retry_count: 0,
            external_middleware_dir: None,
            middleware_chains: StrMap::new(),
            protocols: StrMap::new(),
        }
    }
}

} // verus!
