//! Enabling and disabling a service for startup.

use crate::application::{service_name_text, Application};
use crate::commands::plan::{framed, guarded, one_line, systemctl, unit_call, Call, ServiceCall};
use crate::error::CrescentError;
use vstd::prelude::*;

verus! {

/// Enable a service for startup.
#[derive(Debug)]
pub struct EnableArgs {
    /// Service name.
    pub name: String,
}

/// Disable a service for startup.
#[derive(Debug)]
pub struct DisableArgs {
    /// Service name.
    pub name: String,
}

/// The call that enables the service of the application `name`.
pub open spec fn enable_call(name: Seq<char>) -> Call {
    Call {
        arguments: systemctl(seq!["enable"@, service_name_text(name)]),
        notices: seq!["Enabling '"@ + service_name_text(name) + "'"@],
        report: "Sent enable command to '"@ + service_name_text(name) + "'"@,
    }
}

/// The call that disables the service of the application `name`.
pub open spec fn disable_call(name: Seq<char>) -> Call {
    Call {
        arguments: systemctl(seq!["disable"@, service_name_text(name)]),
        notices: seq!["Disabling '"@ + service_name_text(name) + "'"@],
        report: "Sent disable command to '"@ + service_name_text(name) + "'"@,
    }
}

impl EnableArgs {
    /// Decides what the command does: the application must be there.
    pub fn run(self, exists: bool) -> (r: Result<ServiceCall, CrescentError>)
        ensures
            match r {
                Ok(call) => guarded(exists, true, false, enable_call(self.name@)) == Ok::<
                    Call,
                    CrescentError,
                >(call@),
                Err(e) => guarded(exists, true, false, enable_call(self.name@)) == Err::<
                    Call,
                    CrescentError,
                >(e),
            },
    {
        let application = Application::from(self.name.as_str());
        match application.check_exists(exists) {
            Err(e) => {
                return Err(e);
            },
            Ok(()) => {},
        }
        let service = application.service_name.as_str();
        Ok(
            ServiceCall {
                arguments: unit_call("enable", service),
                notices: one_line(framed("Enabling '", service, "'")),
                report: framed("Sent enable command to '", service, "'"),
            },
        )
    }
}

impl DisableArgs {
    /// Decides what the command does: the application must be there.
    pub fn run(self, exists: bool) -> (r: Result<ServiceCall, CrescentError>)
        ensures
            match r {
                Ok(call) => guarded(exists, true, false, disable_call(self.name@)) == Ok::<
                    Call,
                    CrescentError,
                >(call@),
                Err(e) => guarded(exists, true, false, disable_call(self.name@)) == Err::<
                    Call,
                    CrescentError,
                >(e),
            },
    {
        let application = Application::from(self.name.as_str());
        match application.check_exists(exists) {
            Err(e) => {
                return Err(e);
            },
            Ok(()) => {},
        }
        let service = application.service_name.as_str();
        Ok(
            ServiceCall {
                arguments: unit_call("disable", service),
                notices: one_line(framed("Disabling '", service, "'")),
                report: framed("Sent disable command to '", service, "'"),
            },
        )
    }
}

} // verus!
