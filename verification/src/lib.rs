//! A protocol executor whose requests pass through an ordered chain of
//! middlewares, built-in or external programs.
pub mod text;
pub mod strmap;
pub mod cli;
pub mod yaml;
pub mod config;
pub mod ids;
pub mod clock;
pub mod encoding;
pub mod executor;
pub mod middleware;
pub mod error;
pub mod formatter;
