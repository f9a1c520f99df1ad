//! The executor's error type.
use crate::text::join;
use vstd::prelude::*;

verus! {

/// What can go wrong while running the executor; each variant carries its
/// description.
pub enum Error {
    Config(String),
    Io(String),
    Middleware(String),
    Protocol(String),
    Executor(String),
    Serialization(String),
    Toml(String),
    Yaml(String),
    Network(String),
    Other(String),
}

impl Error {
    /// The heading that precedes the description in the error's message.
    pub open spec fn heading(&self) -> Seq<char> {
        match self {
            Error::Config(_) => "Configuration error: "@,
            Error::Io(_) => "IO error: "@,
            Error::Middleware(_) => "Middleware error: "@,
            Error::Protocol(_) => "Protocol error: "@,
            Error::Executor(_) => "Executor error: "@,
            Error::Serialization(_) => "Serialization error: "@,
            Error::Toml(_) => "TOML parsing error: "@,
            Error::Yaml(_) => "YAML parsing error: "@,
            Error::Network(_) => "Network error: "@,
            Error::Other(_) => "Other error: "@,
        }
    }

    /// The description the error carries.
    pub open spec fn detail(&self) -> Seq<char> {
        match self {
            Error::Config(d) => d@,
            Error::Io(d) => d@,
            Error::Middleware(d) => d@,
            Error::Protocol(d) => d@,
            Error::Executor(d) => d@,
            Error::Serialization(d) => d@,
            Error::Toml(d) => d@,
            Error::Yaml(d) => d@,
            Error::Network(d) => d@,
            Error::Other(d) => d@,
        }
    }

    /// The error's message: its heading, then its description.
    pub fn message(&self) -> (m: String)
        ensures
            m@ == self.heading() + self.detail(),
    {
        match self {
            Error::Config(d) => join("Configuration error: ", d.as_str()),
            Error::Io(d) => join("IO error: ", d.as_str()),
            Error::Middleware(d) => join("Middleware error: ", d.as_str()),
            Error::Protocol(d) => join("Protocol error: ", d.as_str()),
            Error::Executor(d) => join("Executor error: ", d.as_str()),
            Error::Serialization(d) => join("Serialization error: ", d.as_str()),
            Error::Toml(d) => join("TOML parsing error: ", d.as_str()),
            Error::Yaml(d) => join("YAML parsing error: ", d.as_str()),
            Error::Network(d) => join("Network error: ", d.as_str()),
            Error::Other(d) => join("Other error: ", d.as_str()),
        }
    }
}

} // verus!
