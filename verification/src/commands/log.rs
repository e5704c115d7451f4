//! Printing or following the log of a service.

use crate::application::{service_name_text, Application};
use crate::error::CrescentError;
use crate::logger::{LogSystem, Logger};
use crate::loggers::journald::journal_base;
use crate::text::{chars_of, decimal, string_of, texts};
use vstd::prelude::*;

verus! {

/// Print or follow the logs from a service.
#[derive(Debug)]
pub struct LogArgs {
    /// Service name.
    pub name: String,
    /// Lines to print.
    pub lines: u64,
    /// Follow the log for any new lines.
    pub follow: bool,
}

/// The number of lines that are printed where none is given.
pub const DEFAULT_LINES: u64 = 200;

/// The arguments of the call of `journalctl` for the command.
pub open spec fn log_call(name: Seq<char>, lines: u64, follow: bool) -> Seq<Seq<char>> {
    journal_base(service_name_text(name)) + (if follow {
        seq!["--follow"@]
    } else {
        seq!["--lines"@, decimal(lines as nat)]
    })
}

impl LogArgs {
    /// Decides what the command does: the application must be there; then
    /// the log is followed, or its last lines are printed.
    pub fn run(self, exists: bool) -> (r: Result<Vec<String>, CrescentError>)
        ensures
            !exists ==> r == Err::<Vec<String>, CrescentError>(
                CrescentError::ApplicationNotFound,
            ),
            exists ==> r is Ok && texts(r->Ok_0@) == log_call(self.name@, self.lines, self.follow),
    {
        let application = Application::from(self.name.as_str());
        match application.check_exists(exists) {
            Err(e) => {
                return Err(e);
            },
            Ok(()) => {},
        }
        let logger = Logger::get(application.name);
        if self.follow {
            return Ok(logger.follow());
        }
        Ok(logger.log(self.lines))
    }
}

/// The lines that are printed for the last lines of a log: the lines, or
/// one line that says that the log is empty.
pub fn log_output(lines: Vec<String>) -> (r: Vec<String>)
    ensures
        texts(r@) == (if lines.len() == 0 {
            seq!["Log is empty at the moment."@]
        } else {
            texts(lines@)
        }),
{
    if lines.len() == 0 {
        let mut r: Vec<String> = Vec::new();
        r.push(string_of(&chars_of("Log is empty at the moment.")));
        assert(texts(r@) =~= seq!["Log is empty at the moment."@]);
        r
    } else {
        lines
    }
}

} // verus!
