//! Shared utilities that do not belong to a domain subsystem.

pub mod logging;

pub use logging::{directive_is_safe, parse_filter, LogConfig, DEFAULT_ENV_FILTER};
