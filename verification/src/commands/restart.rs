//! Restarting a service.

use crate::application::{service_name_text, Application};
use crate::commands::plan::{framed, guarded, one_line, systemctl, unit_call, Call, ServiceCall};
use crate::error::CrescentError;
use vstd::prelude::*;

verus! {

/// Restart a service.
#[derive(Debug)]
pub struct RestartArgs {
    /// Service name.
    pub name: String,
}

/// The call that restarts the service of the application `name`.
pub open spec fn restart_call(name: Seq<char>) -> Call {
    Call {
        arguments: systemctl(seq!["restart"@, service_name_text(name)]),
        notices: seq!["Restarting '"@ + service_name_text(name) + "'"@],
        report: "Sent restart command to '"@ + service_name_text(name) + "'"@,
    }
}

impl RestartArgs {
    /// Decides what the command does: the application must be there and
    /// its service must be running.
    pub fn run(self, exists: bool, running: bool) -> (r: Result<ServiceCall, CrescentError>)
        ensures
            match r {
                Ok(call) => guarded(exists, running, true, restart_call(self.name@)) == Ok::<
                    Call,
                    CrescentError,
                >(call@),
                Err(e) => guarded(exists, running, true, restart_call(self.name@)) == Err::<
                    Call,
                    CrescentError,
                >(e),
            },
    {
        let application = Application::from(self.name.as_str());
        match application.check_exists(exists) {
            Err(e) => {
                return Err(e);
            },
            Ok(()) => {},
        }
        if !running {
            return Err(CrescentError::ApplicationNotRunning);
        }
        let service = application.service_name.as_str();
        Ok(
            ServiceCall {
                arguments: unit_call("restart", service),
                notices: one_line(framed("Restarting '", service, "'")),
                report: framed("Sent restart command to '", service, "'"),
            },
        )
    }
}

} // verus!
