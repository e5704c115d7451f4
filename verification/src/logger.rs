//! The log system in use.

use crate::loggers::journald::Journald;
use vstd::prelude::*;

verus! {

/// Log system interface: the arguments with which the log system is
/// called.
///
/// For now, only [`Journald`] is supported and few methods supported.
pub trait LogSystem {
    /// The arguments that log `n` lines from the service.
    fn log(&self, n: u64) -> Vec<String>;

    /// The arguments that follow the log for any new lines.
    fn follow(&self) -> Vec<String>;
}

/// Log system implementation.
#[derive(Debug, Clone, Copy, PartialEq, Eq, Structural)]
pub struct Logger;

impl Logger {
    /// Get the log system.
    pub fn get(application_name: String) -> (r: Journald)
        ensures
            r@ == "cres."@ + application_name@ + ".service"@,
    {
        Journald::new(application_name)
    }
}

} // verus!
