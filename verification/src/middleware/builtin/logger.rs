//! The logging middleware. Its hooks only write log lines.
use crate::middleware::builtin::settings_view;
use crate::strmap::StrMap;
use vstd::prelude::*;

verus! {

/// Logs the start and the end of each execution.
pub struct LoggerMiddleware {
    config: Option<StrMap<String>>,
}

impl LoggerMiddleware {
    /// The settings the middleware was created with.
    pub closed spec fn settings(&self) -> Option<Map<Seq<char>, Seq<char>>> {
        settings_view(self.config)
    }

    /// A logger without settings.
    pub fn new() -> (m: Self)
        ensures
            m.settings() is None,
    {
        LoggerMiddleware { config: None }
    }

    /// A logger with the given settings.
    pub fn create(&self, config: Option<StrMap<String>>) -> (m: Self)
        ensures
            m.settings() == settings_view(config),
    {
        LoggerMiddleware { config }
    }

    /// The middleware's name.
    pub fn name(&self) -> (r: &'static str)
        ensures
            r@ == "logger"@,
    {
        "logger"
    }

    /// The middleware's settings.
    pub fn config(&self) -> (r: Option<&StrMap<String>>)
        ensures
            settings_view(match r {
                Some(m) => Some(*m),
                None => None,
            }) == self.settings(),
    {
        self.config.as_ref()
    }
}

} // verus!
