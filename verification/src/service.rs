//! What is known of a service.

use vstd::prelude::*;

verus! {

/// Service status.
#[derive(Debug)]
pub struct Status {
    /// The path of the service's unit file.
    pub script: String,
    /// The path of the file that feeds the service's standard input.
    pub stdin: String,
    /// The service's main process.
    pub pid: u32,
    /// Whether the service is active, as the service manager words it.
    pub active: String,
    /// The command line of the service's main process.
    pub cmd: String,
}

/// What a status holds.
pub struct StatusText {
    pub script: Seq<char>,
    pub stdin: Seq<char>,
    pub pid: u32,
    pub active: Seq<char>,
    pub cmd: Seq<char>,
}

impl View for Status {
    type V = StatusText;

    open spec fn view(&self) -> StatusText {
        StatusText {
            script: self.script@,
            stdin: self.stdin@,
            pid: self.pid,
            active: self.active@,
            cmd: self.cmd@,
        }
    }
}

/// A status as it is handed on: taken apart, or as the service manager
/// printed it.
#[derive(Debug)]
pub enum StatusOutput {
    /// The status of an active service, taken apart.
    Pretty(Status),
    /// The service manager's own words.
    Raw(String),
}

/// What a status output holds.
pub enum StatusReport {
    Pretty(StatusText),
    Raw(Seq<char>),
}

impl View for StatusOutput {
    type V = StatusReport;

    open spec fn view(&self) -> StatusReport {
        match self {
            StatusOutput::Pretty(status) => StatusReport::Pretty(status@),
            StatusOutput::Raw(text) => StatusReport::Raw(text@),
        }
    }
}

/// Why a status could not be taken apart.
#[derive(Debug, Clone, Copy, PartialEq, Eq, Structural)]
pub enum StatusError {
    /// No line tells where the unit was loaded from.
    LoadedMissing,
    /// No line behind that one tells whether the service is active.
    ActiveMissing,
    /// No line behind that one tells the main process.
    PidMissing,
    /// The main process is told by something that is no number.
    PidInvalid,
    /// No line behind that one starts the control group, or the line of
    /// the command is not there.
    CGroupMissing,
}

/// Init system interface: the names that a service goes by, the files
/// that are written for it, and how what the init system prints is read.
///
/// For now, only [`crate::services::systemd::Systemd`] is supported.
pub trait InitSystem {
    /// Set the service name being queried. Not required if only using
    /// [`InitSystem::list`].
    fn set_service_name(&mut self, name: &str);

    /// Returns the absolute paths of all generated scripts.
    fn get_scripts_paths(&self, home: &str) -> Vec<String>;

    /// Checks if the service is running, from what the init system printed
    /// when it was asked.
    fn is_running(&self, stdout: &str) -> bool;

    /// Checks if the service is enabled for startup, from what the init
    /// system printed when it was asked.
    fn is_enabled(&self, stdout: &str) -> bool;

    /// Request the status of the service, from what the init system
    /// printed when it was asked for it.
    fn status(&self, stdout: &str, raw: bool, home: &str) -> Result<StatusOutput, StatusError>;

    /// List basic infomation of all services, from what the init system
    /// printed when it was asked for them.
    fn list(&self, stdout: &str) -> Vec<String>;
}

/// Init system implementation.
#[derive(Debug, Clone, Copy, PartialEq, Eq, Structural)]
pub struct Service;

impl Service {
    /// Get the current `init` system, set to the service of the
    /// application `name` where one is given.
    pub fn get(name: Option<&str>) -> (r: crate::services::systemd::Systemd)
        ensures
            r@ == (match name {
                Some(n) => crate::services::systemd::units_for(n@),
                None => crate::services::systemd::no_units(),
            }),
    {
        let mut system = crate::services::systemd::Systemd::new();
        match name {
            Some(n) => {
                system.set_service_name(n);
            },
            None => {},
        }
        system
    }
}

} // verus!
