use crescent::application::{app_already_running, check_app_exists, Application, PingOutcome};
use crescent::error::CrescentError;
use crescent::subprocess::SocketEvent;

#[test]
fn application_from_name() {
    let application = Application::from("echo1");
    assert_eq!(application.name, "echo1");
    assert_eq!(application.service_name, "cres.echo1.service");
}

#[test]
fn application_must_have_its_directory() {
    let application = Application::from("test_app_not_available");
    assert_eq!(application.check_exists(true), Ok(()));
    let err = application.check_exists(false).unwrap_err();
    assert_eq!(err, CrescentError::ApplicationNotFound);
    assert_eq!(err.message(), "Application does not exist.");
    assert_eq!(check_app_exists(false), Err(CrescentError::ApplicationNotFound));
    assert_eq!(check_app_exists(true), Ok(()));
}

#[test]
fn application_files() {
    let application = Application::from("echo1");
    assert_eq!(application.stdin_path("/home/u"), "/home/u/.crescent/apps//echo1/stdin");
    assert_eq!(application.history_path("/home/u"), "/home/u/.crescent/apps//echo1/history");
}

#[test]
fn command_history_is_read_newest_first() {
    let application = Application::from("echo1");
    assert_eq!(application.read_command_history("a\nb\nc\n"), vec!["c", "b", "a"]);
    assert_eq!(application.read_command_history(""), Vec::<String>::new());
    assert_eq!(application.read_command_history("only"), vec!["only"]);
}

#[test]
fn running_needs_two_pids_and_a_ping() {
    let ping = SocketEvent::Ping.encode();
    assert_eq!(app_already_running(&vec![1, 2], PingOutcome::Answered(ping.clone())), Ok(true));
    assert_eq!(app_already_running(&vec![1], PingOutcome::Answered(ping.clone())), Ok(false));
    assert_eq!(app_already_running(&vec![], PingOutcome::Answered(ping)), Ok(false));
    let other = SocketEvent::Stop.encode();
    assert_eq!(app_already_running(&vec![1, 2], PingOutcome::Answered(other)), Ok(false));
    assert_eq!(app_already_running(&vec![1, 2], PingOutcome::Answered(vec![])), Ok(false));
}

#[test]
fn liveness_after_supervisor_death() {
    // The PID file still tells both processes, the socket leads nowhere.
    assert_eq!(app_already_running(&vec![100, 200], PingOutcome::ConnectFailed), Ok(false));
    let command = crescent::commands::signals::SignalArgs { name: String::from("app"), signal: 0 };
    let err = command.run(true, false, &vec![100, 200]).unwrap_err();
    assert_eq!(err, CrescentError::ApplicationNotRunning);
}

#[test]
fn other_socket_errors_are_told() {
    assert_eq!(
        app_already_running(&vec![100, 200], PingOutcome::Failed),
        Err(CrescentError::SocketError)
    );
    assert_eq!(app_already_running(&vec![100], PingOutcome::Failed), Ok(false));
}
