use crescent::commands::signals::{Delivery, KillArgs, SignalArgs, StopArgs, StopRequest};
use crescent::error::CrescentError;

#[test]
fn unit_signal_run() {
    let name = "unit_signal_run".to_string();
    let command = SignalArgs { name: name.clone(), signal: 0 };

    // No directory for the application.
    let err = command.run(false, false, &vec![]).unwrap_err();
    assert_eq!(err.message(), "Application does not exist.");

    // The directory and an empty PID file are there.
    let command = SignalArgs { name: name.clone(), signal: 0 };
    let err = command.run(true, false, &vec![]).unwrap_err();
    assert_eq!(err.message(), "Application not running.");

    // The PID file tells two processes, and no supervisor answers.
    let pid = 4242;
    let command = SignalArgs { name: name.clone(), signal: 0 };
    let err = command.run(true, false, &vec![pid, pid]).unwrap_err();
    assert_eq!(err.message(), "Application not running.");
}

#[test]
fn unit_stop_run() {
    let name = "unit_stop_run".to_string();
    let command = StopArgs { name, force: true };
    let err = command.run(false, false, &vec![]).unwrap_err();
    assert_eq!(err.message(), "Application does not exist.");
}

#[test]
fn signal_goes_to_the_child() {
    let command = SignalArgs { name: "app".to_string(), signal: 10 };
    assert_eq!(command.run(true, true, &vec![100, 200]), Ok(Delivery { pid: 200, signal: 10 }));
}

#[test]
fn signal_needs_both_processes() {
    let command = SignalArgs { name: "app".to_string(), signal: 10 };
    assert_eq!(command.run(true, true, &vec![100]), Err(CrescentError::ApplicationNotRunning));
}

#[test]
fn force_stop_sends_sigterm() {
    let command = StopArgs { name: "app".to_string(), force: true };
    match command.run(true, true, &vec![100, 200]) {
        Ok(StopRequest::Signal(d)) => assert_eq!(d, Delivery { pid: 200, signal: 15 }),
        other => panic!("unexpected {:?}", other),
    }
}

#[test]
fn stop_sends_the_stop_event() {
    let command = StopArgs { name: "app".to_string(), force: false };
    match command.run(true, true, &vec![100, 200]) {
        Ok(StopRequest::Event(frame)) => assert_eq!(frame, b"{\"Stop\":null}".to_vec()),
        other => panic!("unexpected {:?}", other),
    }
}

#[test]
fn kill_sends_sigkill() {
    let command = KillArgs { name: "app".to_string() };
    assert_eq!(command.run(true, true, &vec![100, 200]), Ok(Delivery { pid: 200, signal: 9 }));
    let command = KillArgs { name: "app".to_string() };
    assert_eq!(command.run(false, true, &vec![100, 200]), Err(CrescentError::ApplicationNotFound));
}
