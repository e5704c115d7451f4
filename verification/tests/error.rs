use crescent::error::{CrescentError, SignalError};

#[test]
fn signal_outcomes() {
    assert_eq!(SignalError::from_errno(0, 0), Ok(()));
    assert_eq!(SignalError::from_errno(0, 3), Ok(()));
    assert_eq!(SignalError::from_errno(-1, 1), Err(SignalError::PermissionDenied));
    assert_eq!(SignalError::from_errno(-1, 3), Err(SignalError::NoSuchProcess));
    assert_eq!(SignalError::from_errno(-1, 22), Err(SignalError::InvalidSignal));
    assert_eq!(SignalError::from_errno(-1, 4), Err(SignalError::Unknown(4)));
}

#[test]
fn kill_after_exit_finds_no_process() {
    // The system call fails with ESRCH once the child is gone.
    assert_eq!(SignalError::from_errno(-1, 3), Err(SignalError::NoSuchProcess));
}

#[test]
fn signal_messages() {
    assert_eq!(
        SignalError::NoSuchProcess.message(),
        "Error sending signal: (3) ESRCH - The target process or process group does not exist."
    );
    assert_eq!(
        SignalError::InvalidSignal.message(),
        "Error sending signal: (22) EINVAL - An invalid signal was specified."
    );
    assert_eq!(
        SignalError::Unknown(38).message(),
        "Error sending signal: (38) Unknown error - Error not documented by crescent."
    );
    assert_eq!(
        SignalError::Unknown(-7).message(),
        "Error sending signal: (-7) Unknown error - Error not documented by crescent."
    );
    assert_eq!(
        SignalError::Unknown(i32::MIN).message(),
        "Error sending signal: (-2147483648) Unknown error - Error not documented by crescent."
    );
    assert_eq!(
        CrescentError::Signal(SignalError::PermissionDenied).message(),
        SignalError::PermissionDenied.message()
    );
}

#[test]
fn every_error_has_its_own_message() {
    let all = [
        CrescentError::ApplicationNotFound,
        CrescentError::ApplicationNotRunning,
        CrescentError::ApplicationAlreadyRunning,
        CrescentError::NameContainsWhitespace,
        CrescentError::ExecutablePathNotFound,
        CrescentError::ExecutablePathNotProvided,
        CrescentError::SocketBindError,
        CrescentError::SocketConnectError,
        CrescentError::SubprocessFailedToStart,
        CrescentError::Signal(SignalError::PermissionDenied),
        CrescentError::Signal(SignalError::NoSuchProcess),
        CrescentError::Signal(SignalError::InvalidSignal),
        CrescentError::Signal(SignalError::Unknown(5)),
        CrescentError::EmptyCommand,
        CrescentError::ProfileNotFound,
        CrescentError::InvalidPidFile,
        CrescentError::PidFileWrite,
        CrescentError::SocketError,
    ];
    for (i, a) in all.iter().enumerate() {
        assert!(!a.message().is_empty());
        for b in all.iter().skip(i + 1) {
            assert_ne!(a.message(), b.message());
        }
    }
    assert_eq!(CrescentError::NameContainsWhitespace.message(), "Name contains whitespace.");
    assert_eq!(CrescentError::ExecutablePathNotProvided.message(), "Executable path not provided.");
    assert_eq!(CrescentError::ApplicationNotRunning.message(), "Application not running.");
}
