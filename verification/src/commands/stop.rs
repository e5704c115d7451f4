//! Stopping a service.

use crate::application::{service_name_text, Application};
use crate::commands::plan::{framed, guarded, one_line, systemctl, unit_call, Call, ServiceCall};
use crate::error::CrescentError;
use crate::service::Service;
use vstd::prelude::*;

verus! {

/// Stop a service.
#[derive(Debug)]
pub struct StopArgs {
    /// Service name.
    pub name: String,
}

/// The call that stops the service of the application `name`: its socket
/// unit is stopped.
pub open spec fn stop_call(name: Seq<char>) -> Call {
    Call {
        arguments: systemctl(seq!["stop"@, "cres."@ + name + ".socket"@]),
        notices: seq!["Stopping '"@ + service_name_text(name) + "'"@],
        report: "Sent stop command to '"@ + service_name_text(name) + "'"@,
    }
}

impl StopArgs {
    /// Decides what the command does: the application must be there and
    /// its service must be running.
    pub fn run(self, exists: bool, running: bool) -> (r: Result<ServiceCall, CrescentError>)
        ensures
            match r {
                Ok(call) => guarded(exists, running, true, stop_call(self.name@)) == Ok::<
                    Call,
                    CrescentError,
                >(call@),
                Err(e) => guarded(exists, running, true, stop_call(self.name@)) == Err::<
                    Call,
                    CrescentError,
                >(e),
            },
    {
        let application = Application::from(self.name.as_str());
        match application.check_exists(exists) {
            Err(e) => {
                return Err(e);
            },
            Ok(()) => {},
        }
        if !running {
            return Err(CrescentError::ApplicationNotRunning);
        }
        let init_system = Service::get(Some(application.name.as_str()));
        let service = application.service_name.as_str();
        Ok(
            ServiceCall {
                arguments: unit_call("stop", init_system.socket_name().as_str()),
                notices: one_line(framed("Stopping '", service, "'")),
                report: framed("Sent stop command to '", service, "'"),
            },
        )
    }
}

} // verus!
