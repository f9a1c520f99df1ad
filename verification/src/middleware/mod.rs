//! Middlewares: built-in ones, external programs, and the registry that
//! finds them by name.
pub mod builtin;
pub mod external;
pub mod registry;

use crate::middleware::builtin::logger::LoggerMiddleware;
use crate::middleware::builtin::metrics::MetricsMiddleware;
use crate::middleware::builtin::single_transfer::SingleTransferMiddleware;
use crate::middleware::builtin::validator::ValidatorMiddleware;
use crate::middleware::external::{ExternalMiddleware, DEFAULT_EXTERNAL_TIMEOUT_SECS};
use vstd::prelude::*;

verus! {

/// A middleware named by kind: built in, by name, or external, by path.
pub enum MiddlewareType {
    Builtin(String),
    External(String),
}

/// Which middleware an instance is, with what it carries: the settings of a
/// built-in one; the name of an external one and how its program is run.
pub enum MiddlewareKind {
    Logger(Option<Map<Seq<char>, Seq<char>>>),
    Validator(Option<Map<Seq<char>, Seq<char>>>),
    Metrics(Option<Map<Seq<char>, Seq<char>>>),
    SingleTransfer(Option<Map<Seq<char>, Seq<char>>>),
    External {
        path: Seq<char>,
        name: Seq<char>,
        timeout_secs: u64,
        args: Seq<Seq<char>>,
        env_vars: Map<Seq<char>, Seq<char>>,
        working_dir: Option<Seq<char>>,
    },
}

/// An external middleware called `name` that runs the program at `path`
/// with the default settings: a 30 second timeout, no arguments, no extra
/// environment, the current working directory.
pub open spec fn default_external_kind(path: Seq<char>, name: Seq<char>) -> MiddlewareKind {
    MiddlewareKind::External {
        path,
        name,
        timeout_secs: DEFAULT_EXTERNAL_TIMEOUT_SECS,
        args: Seq::empty(),
        env_vars: Map::empty(),
        working_dir: None,
    }
}

/// An external middleware whose program runs with the default settings is
/// seen as `default_external_kind` of its path and name.
pub proof fn lemma_default_external_view(m: ExternalMiddleware, path: Seq<char>)
    requires
        m.spec_config().is_defaults_for(path),
    ensures
        MiddlewareInstance::External(m)@ == default_external_kind(path, m.spec_name()),
{
    assert(m.spec_config().args@.map_values(|a: String| a@) =~= Seq::<Seq<char>>::empty());
}

/// A middleware that can stand in a chain.
pub enum MiddlewareInstance {
    Logger(LoggerMiddleware),
    Validator(ValidatorMiddleware),
    Metrics(MetricsMiddleware),
    SingleTransfer(SingleTransferMiddleware),
    External(ExternalMiddleware),
}

impl View for MiddlewareInstance {
    type V = MiddlewareKind;

    open spec fn view(&self) -> MiddlewareKind {
        match self {
            MiddlewareInstance::Logger(m) => MiddlewareKind::Logger(m.settings()),
            MiddlewareInstance::Validator(m) => MiddlewareKind::Validator(m.settings()),
            MiddlewareInstance::Metrics(m) => MiddlewareKind::Metrics(m.settings()),
            MiddlewareInstance::SingleTransfer(m) => MiddlewareKind::SingleTransfer(m.settings()),
            MiddlewareInstance::External(m) => MiddlewareKind::External {
                path: m.spec_config().path@,
                name: m.spec_name(),
                timeout_secs: m.spec_config().timeout_secs,
                args: m.spec_config().args@.map_values(|a: String| a@),
                env_vars: m.spec_config().env_vars@,
                working_dir: match m.spec_config().working_dir {
                    Some(w) => Some(w@),
                    None => None,
                },
            },
        }
    }
}

impl MiddlewareInstance {
    /// The middleware's name.
    pub fn name(&self) -> (r: &str)
        ensures
            match self {
                MiddlewareInstance::Logger(_) => r@ == "logger"@,
                MiddlewareInstance::Validator(_) => r@ == "validator"@,
                MiddlewareInstance::Metrics(_) => r@ == "metrics"@,
                MiddlewareInstance::SingleTransfer(_) => r@ == "single transfer"@,
                MiddlewareInstance::External(m) => r@ == m.spec_name(),
            },
    {
        match self {
            MiddlewareInstance::Logger(m) => m.name(),
            MiddlewareInstance::Validator(m) => m.name(),
            MiddlewareInstance::Metrics(m) => m.name(),
            MiddlewareInstance::SingleTransfer(m) => m.name(),
            MiddlewareInstance::External(m) => m.name(),
        }
    }
}

} // verus!
