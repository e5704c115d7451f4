use crescent::application::{app_already_running, PingOutcome};
use crescent::commands::attach::AttachArgs;
use crescent::commands::log::LogArgs;
use crescent::commands::send::SendArgs;
use crescent::commands::signals::{KillArgs, SignalArgs, StopArgs};
use crescent::commands::status::StatusArgs;
use crescent::service::StatusOutput;

const MISSING: &str = "test_app_not_available";
const NOT_EXIST: &str = "test_app_not_exist";

#[test]
fn cli_log_no_apps_running() {
    let args = LogArgs { name: String::from(MISSING), lines: 200, follow: false };
    assert_eq!(args.run(false).unwrap_err().message(), "Application does not exist.");
}

#[test]
fn cli_send_no_apps_running() {
    let args = SendArgs { name: String::from(MISSING), command: vec![String::from("command")] };
    assert_eq!(args.run(false).unwrap_err().message(), "Application does not exist.");
}

#[test]
fn cli_signal_no_apps_running() {
    let args = SignalArgs { name: String::from(MISSING), signal: 0 };
    assert_eq!(
        args.run(false, false, &vec![]).unwrap_err().message(),
        "Application does not exist."
    );
}

#[test]
fn cli_status_no_apps_running() {
    let args = StatusArgs { name: String::from(MISSING), raw: false };
    let err = args.run(false, &StatusOutput::Raw(String::new()), false).unwrap_err();
    assert_eq!(err.message(), "Application does not exist.");
}

#[test]
fn cli_stop_no_apps_running() {
    let args = StopArgs { name: String::from(MISSING), force: true };
    assert_eq!(
        args.run(false, false, &vec![]).unwrap_err().message(),
        "Application does not exist."
    );
}

#[test]
fn cli_kill_no_apps_running() {
    let args = KillArgs { name: String::from(MISSING) };
    assert_eq!(
        args.run(false, false, &vec![]).unwrap_err().message(),
        "Application does not exist."
    );
}

#[test]
fn cli_attach_no_apps_running() {
    let args = AttachArgs { name: String::from(MISSING) };
    assert_eq!(args.run(false, false, None).unwrap_err().message(), "Application does not exist.");
}

#[test]
fn not_exist_log_no_apps_running() {
    let args = LogArgs { name: String::from(NOT_EXIST), lines: 200, follow: true };
    assert!(args.run(false).is_err());
}

#[test]
fn not_exist_send_no_apps_running() {
    let args = SendArgs { name: String::from(NOT_EXIST), command: vec![String::from("command")] };
    assert!(args.run(false).is_err());
}

#[test]
fn not_exist_signal_no_apps_running() {
    let args = SignalArgs { name: String::from(NOT_EXIST), signal: 0 };
    assert!(args.run(false, false, &vec![]).is_err());
}

#[test]
fn not_exist_status_no_apps_running() {
    let args = StatusArgs { name: String::from(NOT_EXIST), raw: false };
    assert!(args.run(false, &StatusOutput::Raw(String::new()), false).is_err());
}

#[test]
fn not_exist_stop_no_apps_running() {
    let args = StopArgs { name: String::from(NOT_EXIST), force: true };
    assert!(args.run(false, false, &vec![]).is_err());
}

#[test]
fn not_exist_kill_no_apps_running() {
    let args = KillArgs { name: String::from(NOT_EXIST) };
    assert!(args.run(false, false, &vec![]).is_err());
}

#[test]
fn not_exist_attach_no_apps_running() {
    let args = AttachArgs { name: String::from(NOT_EXIST) };
    assert!(args.run(false, false, None).is_err());
}

#[test]
fn attach_short_lived_command() {
    // The command has exited: its directory is there, its supervisor is not.
    let running = app_already_running(&vec![100, 200], PingOutcome::ConnectFailed).unwrap();
    let args = AttachArgs { name: String::from("attach_echo") };
    assert_eq!(args.run(true, running, None).unwrap_err().message(), "Application not running.");
}

#[test]
fn attach_short_lived() {
    let running = app_already_running(&vec![100], PingOutcome::ConnectFailed).unwrap();
    let args = AttachArgs { name: String::from("attach_short_lived") };
    assert_eq!(args.run(true, running, None).unwrap_err().message(), "Application not running.");
}

#[test]
fn attach_command_socket_not_found() {
    // The socket file is there and nobody listens on it.
    let running = app_already_running(&vec![100, 200], PingOutcome::ConnectFailed).unwrap();
    let args = AttachArgs { name: String::from("attach_socket_not_found") };
    assert_eq!(args.run(true, running, None).unwrap_err().message(), "Application not running.");
}

#[test]
fn attach_socket_not_found_short_lived() {
    let running = app_already_running(&vec![], PingOutcome::ConnectFailed).unwrap();
    let args = AttachArgs { name: String::from("attach_socket_not_found") };
    assert_eq!(args.run(true, running, None).unwrap_err().message(), "Application not running.");
}
