//! Severity levels of the service log.

use vstd::prelude::*;

verus! {

/// Makes `log::LevelFilter` known, with its variants as the `log` crate
/// declares them: `Off`, `Error`, `Warn`, `Info`, `Debug`, `Trace`.
#[verifier::external_type_specification]
pub struct ExLevelFilter(log::LevelFilter);

/// Makes `log::Level` known, with its variants as the `log` crate declares
/// them: `Error`, `Warn`, `Info`, `Debug`, `Trace`.
#[verifier::external_type_specification]
pub struct ExLevel(log::Level);

/// The various levels of log, increasing in severity.
#[derive(Clone, Copy, Debug, PartialEq, Eq, Structural)]
pub enum LogLevel {
    /// Trace
    Trace,
    /// Debug
    Debug,
    /// Informational
    Info,
    /// Warning
    Warning,
    /// Error
    Error,
}

impl Default for LogLevel {
    /// The level that is logged at where none is chosen: informational.
    fn default() -> (level: Self)
        ensures
            level == LogLevel::Info,
    {
        LogLevel::Info
    }
}

impl LogLevel {
    /// The filter that lets through this level and every more severe one.
    pub fn level_filter(&self) -> (filter: log::LevelFilter)
        ensures
            filter == match *self {
                LogLevel::Trace => log::LevelFilter::Trace,
                LogLevel::Debug => log::LevelFilter::Debug,
                LogLevel::Info => log::LevelFilter::Info,
                LogLevel::Warning => log::LevelFilter::Warn,
                LogLevel::Error => log::LevelFilter::Error,
            },
    {
        match self {
            LogLevel::Debug => log::LevelFilter::Debug,
            LogLevel::Info => log::LevelFilter::Info,
            LogLevel::Warning => log::LevelFilter::Warn,
            LogLevel::Error => log::LevelFilter::Error,
            LogLevel::Trace => log::LevelFilter::Trace,
        }
    }

    /// The level at which a record of this severity is logged.
    pub fn level(&self) -> (level: log::Level)
        ensures
            level == match *self {
                LogLevel::Trace => log::Level::Trace,
                LogLevel::Debug => log::Level::Debug,
                LogLevel::Info => log::Level::Info,
                LogLevel::Warning => log::Level::Warn,
                LogLevel::Error => log::Level::Error,
            },
    {
        match self {
            LogLevel::Debug => log::Level::Debug,
            LogLevel::Info => log::Level::Info,
            LogLevel::Warning => log::Level::Warn,
            LogLevel::Error => log::Level::Error,
            LogLevel::Trace => log::Level::Trace,
        }
    }
}

} // verus!
