//! The failures that a command can end in, each with the one line that the
//! user is shown for it.

use crate::text::{append_chars, append_str, chars_of, decimal, decimal_chars, string_of};
use vstd::prelude::*;

verus! {

/// Why a signal could not be delivered.
#[derive(Debug, Clone, Copy, PartialEq, Eq, Structural)]
pub enum SignalError {
    /// The caller may not signal the process.
    PermissionDenied,
    /// No process has the given number.
    NoSuchProcess,
    /// The signal's number is not a signal.
    InvalidSignal,
    /// Another error, with its number.
    Unknown(i32),
}

/// What failed when the supervisor left the terminal.
#[derive(Debug, Clone, Copy, PartialEq, Eq, Structural)]
pub enum DaemonizationError {
    /// The PID file could not be made.
    PidFile,
    /// The log file could not be made.
    LogFile,
    /// No process could be forked.
    Fork,
}

/// The failures of a command.
#[derive(Debug, Clone, Copy, PartialEq, Eq, Structural)]
pub enum CrescentError {
    /// The application has no directory.
    ApplicationNotFound,
    /// The PID file is short, or no supervisor answers on the socket.
    ApplicationNotRunning,
    /// An application of that name is supervised already.
    ApplicationAlreadyRunning,
    /// The name holds white space.
    NameContainsWhitespace,
    /// The executable's path leads to no file.
    ExecutablePathNotFound,
    /// No executable was named.
    ExecutablePathNotProvided,
    /// The control socket could not be bound.
    SocketBindError,
    /// The control socket could not be reached.
    SocketConnectError,
    /// The child had exited right after it was spawned.
    SubprocessFailedToStart,
    /// A signal could not be delivered.
    Signal(SignalError),
    /// The command to send was empty or white space only.
    EmptyCommand,
    /// No profile is kept under the given name as a JSON file.
    ProfileNotFound,
    /// The PID file holds a line that is no process number.
    InvalidPidFile,
    /// The child's process number could not be added to the PID file.
    PidFileWrite,
    /// The control socket failed after it was reached.
    SocketError,
    /// The supervisor could not leave the terminal.
    Daemonization(DaemonizationError),
}

/// The line shown for an error of signal delivery.
pub open spec fn signal_message(e: SignalError) -> Seq<char> {
    match e {
        SignalError::PermissionDenied =>
            "Error sending signal: (1) EPERM - The calling process does not have permission to send the signal to the target process."@,
        SignalError::NoSuchProcess =>
            "Error sending signal: (3) ESRCH - The target process or process group does not exist."@,
        SignalError::InvalidSignal =>
            "Error sending signal: (22) EINVAL - An invalid signal was specified."@,
        SignalError::Unknown(code) => "Error sending signal: ("@ + (if code < 0 {
            "-"@ + decimal((-code) as nat)
        } else {
            decimal(code as nat)
        }) + ") Unknown error - Error not documented by crescent."@,
    }
}

/// The line shown for an error.
pub open spec fn message_text(e: CrescentError) -> Seq<char> {
    match e {
        CrescentError::ApplicationNotFound => "Application does not exist."@,
        CrescentError::ApplicationNotRunning => "Application not running."@,
        CrescentError::ApplicationAlreadyRunning =>
            "An application with the same name is already running."@,
        CrescentError::NameContainsWhitespace => "Name contains whitespace."@,
        CrescentError::ExecutablePathNotFound => "Executable path not found."@,
        CrescentError::ExecutablePathNotProvided => "Executable path not provided."@,
        CrescentError::SocketBindError => "Error starting socket listener."@,
        CrescentError::SocketConnectError => "Error connecting to the application's socket."@,
        CrescentError::SubprocessFailedToStart => "Subprocess failed to start."@,
        CrescentError::Signal(e) => signal_message(e),
        CrescentError::EmptyCommand => "Command empty"@,
        CrescentError::ProfileNotFound => "Profile not found."@,
        CrescentError::InvalidPidFile => "Error parsing PID."@,
        CrescentError::PidFileWrite => "Error appending PID to file."@,
        CrescentError::SocketError => "Error talking to the application's socket."@,
        CrescentError::Daemonization(e) => match e {
            DaemonizationError::PidFile => "Error creating the PID file."@,
            DaemonizationError::LogFile => "Error creating the log file."@,
            DaemonizationError::Fork => "Error forking the supervisor."@,
        },
    }
}

impl SignalError {
    /// The outcome of a delivery from what the system call gave back: its
    /// result, and the error number where the result was not 0.
    pub fn from_errno(result: i32, errno: i32) -> (r: Result<(), SignalError>)
        ensures
            r == signal_outcome(result, errno),
    {
        if result == 0 {
            Ok(())
        } else if errno == 1 {
            Err(SignalError::PermissionDenied)
        } else if errno == 3 {
            Err(SignalError::NoSuchProcess)
        } else if errno == 22 {
            Err(SignalError::InvalidSignal)
        } else {
            Err(SignalError::Unknown(errno))
        }
    }

    /// The line shown for this error.
    pub fn message(&self) -> (r: String)
        ensures
            r@ == signal_message(*self),
    {
        match self {
            SignalError::PermissionDenied => string_of(
                &chars_of(
                    "Error sending signal: (1) EPERM - The calling process does not have permission to send the signal to the target process.",
                ),
            ),
            SignalError::NoSuchProcess => string_of(
                &chars_of(
                    "Error sending signal: (3) ESRCH - The target process or process group does not exist.",
                ),
            ),
            SignalError::InvalidSignal => string_of(
                &chars_of("Error sending signal: (22) EINVAL - An invalid signal was specified."),
            ),
            SignalError::Unknown(code) => {
                let mut out = chars_of("Error sending signal: (");
                let code: i64 = *code as i64;
                if code < 0 {
                    append_str(&mut out, "-");
                    let digits = decimal_chars((0 - code) as u64);
                    append_chars(&mut out, &digits);
                } else {
                    let digits = decimal_chars(code as u64);
                    append_chars(&mut out, &digits);
                }
                append_str(&mut out, ") Unknown error - Error not documented by crescent.");
                assert(out@ =~= signal_message(*self));
                string_of(&out)
            },
        }
    }
}

/// What a delivery ended in: success where the system call gave 0, else the
/// error that its error number stands for.
pub open spec fn signal_outcome(result: i32, errno: i32) -> Result<(), SignalError> {
    if result == 0 {
        Ok(())
    } else if errno == 1 {
        Err(SignalError::PermissionDenied)
    } else if errno == 3 {
        Err(SignalError::NoSuchProcess)
    } else if errno == 22 {
        Err(SignalError::InvalidSignal)
    } else {
        Err(SignalError::Unknown(errno))
    }
}

impl CrescentError {
    /// The line shown for this error.
    pub fn message(&self) -> (r: String)
        ensures
            r@ == message_text(*self),
    {
        match self {
            CrescentError::ApplicationNotFound => string_of(
                &chars_of("Application does not exist."),
            ),
            CrescentError::ApplicationNotRunning => string_of(
                &chars_of("Application not running."),
            ),
            CrescentError::ApplicationAlreadyRunning => string_of(
                &chars_of("An application with the same name is already running."),
            ),
            CrescentError::NameContainsWhitespace => string_of(
                &chars_of("Name contains whitespace."),
            ),
            CrescentError::ExecutablePathNotFound => string_of(
                &chars_of("Executable path not found."),
            ),
            CrescentError::ExecutablePathNotProvided => string_of(
                &chars_of("Executable path not provided."),
            ),
            CrescentError::SocketBindError => string_of(
                &chars_of("Error starting socket listener."),
            ),
            CrescentError::SocketConnectError => string_of(
                &chars_of("Error connecting to the application's socket."),
            ),
            CrescentError::SubprocessFailedToStart => string_of(
                &chars_of("Subprocess failed to start."),
            ),
            CrescentError::Signal(e) => e.message(),
            CrescentError::EmptyCommand => string_of(&chars_of("Command empty")),
            CrescentError::ProfileNotFound => string_of(&chars_of("Profile not found.")),
            CrescentError::InvalidPidFile => string_of(&chars_of("Error parsing PID.")),
            CrescentError::PidFileWrite => string_of(&chars_of("Error appending PID to file.")),
            CrescentError::SocketError => string_of(
                &chars_of("Error talking to the application's socket."),
            ),
            CrescentError::Daemonization(e) => match e {
                DaemonizationError::PidFile => string_of(
                    &chars_of("Error creating the PID file."),
                ),
                DaemonizationError::LogFile => string_of(
                    &chars_of("Error creating the log file."),
                ),
                DaemonizationError::Fork => string_of(&chars_of("Error forking the supervisor.")),
            },
        }
    }
}

} // verus!
