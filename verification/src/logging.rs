//! Logging defaults that suit examples and tests.

use log::{LevelFilter, SetLoggerError};
use simple_logger::SimpleLogger;
use vstd::prelude::*;

verus! {

#[verifier::external_type_specification]
pub struct ExLevelFilter(LevelFilter);

#[verifier::external_type_specification]
#[verifier::external_body]
pub struct ExSetLoggerError(SetLoggerError);

/// Builds a `SimpleLogger` with the given level as its default, which the
/// environment may override, and installs it as the global logger. Whether
/// that succeeds depends on what the process did before: it fails where a
/// logger is already installed, so nothing is claimed of the result.
#[verifier::external_body]
fn install_logger(level: LevelFilter, threads: bool) -> (installed: Result<(), SetLoggerError>) {
    SimpleLogger::new().with_level(level).with_threads(threads).env().init()
}

/// Configures logging with `level` as the default level, with thread names in
/// the output. Fails where a logger has already been configured.
pub fn try_enable_with_level(level: LevelFilter) -> (enabled: Result<(), SetLoggerError>) {
    install_logger(level, true)
}

/// Configures logging with the default level `Info`. Fails where a logger has
/// already been configured.
pub fn try_enable() -> (enabled: Result<(), SetLoggerError>) {
    try_enable_with_level(LevelFilter::Info)
}

/// Configures the logging defaults. If a logger has already been configured,
/// does nothing.
pub fn enable_idempotent() {
    match try_enable() {
        Ok(()) => {},
        Err(_) => {},
    }
}

} // verus!
