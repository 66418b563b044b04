//! Command-line verbosity levels.

use vstd::prelude::*;

verus! {

/// Verbosity levels selectable on the command line.
#[derive(Debug, Clone, Copy, PartialEq, Eq, Structural)]
pub enum LogLevel {
    /// Trace-level logging.
    Trace,
    /// Debug-level logging.
    Debug,
    /// Informational logging.
    Info,
    /// Warnings only.
    Warn,
    /// Errors only.
    Error,
}

#[verifier::external_type_specification]
#[verifier::external_body]
pub struct ExTracingLevel(tracing::Level);

impl LogLevel {
    /// Relies on the `tracing::Level` constants: maps each verbosity level
    /// to the tracing level of the same name.
    #[verifier::external_body]
    pub fn as_tracing_level(&self) -> tracing::Level {
        match self {
            LogLevel::Trace => tracing::Level::TRACE,
            LogLevel::Debug => tracing::Level::DEBUG,
            LogLevel::Info => tracing::Level::INFO,
            LogLevel::Warn => tracing::Level::WARN,
            LogLevel::Error => tracing::Level::ERROR,
        }
    }
}

} // verus!
