use crescent::service::{InitSystem, Service, StatusError, StatusOutput};
use crescent::services::systemd::Systemd;

const STATUS: &str = "\u{25cf} cres.test.service - Service unit for 'test'
     Loaded: loaded (/home/u/.config/systemd/user/cres.test.service; disabled; preset: enabled)
     Active: active (running) since Mon 2023-01-01 10:00:00 UTC; 5min ago
   Main PID: 1234 (python3)
      Tasks: 1 (limit: 4915)
     Memory: 5.0M
        CPU: 50ms
     CGroup: /user.slice/user-1000.slice/user@1000.service/app.slice/cres.test.service
             \u{2514}\u{2500}1234 /usr/bin/python3 ./service.py
";

fn test_service() -> Systemd {
    Service::get(Some("test"))
}

#[test]
fn service_names() {
    let fresh = Systemd::new();
    assert_eq!(fresh.name(), "");
    assert_eq!(fresh.service_name(), "");
    assert_eq!(fresh.socket_name(), "");
    let system = test_service();
    assert_eq!(system.name(), "test");
    assert_eq!(system.service_name(), "cres.test.service");
    assert_eq!(system.socket_name(), "cres.test.socket");
    let none = Service::get(None);
    assert_eq!(none.service_name(), "");
}

#[test]
fn scripts_paths() {
    assert_eq!(
        test_service().get_scripts_paths("/home/u"),
        vec![
            "/home/u/.config/systemd/user/cres.test.service",
            "/home/u/.config/systemd/user/cres.test.socket"
        ]
    );
}

#[test]
fn service_unit_text() {
    assert_eq!(
        test_service().service_unit("python3 /srv/a.py -v"),
        "[Unit]\nDescription=Service unit for 'test'\nRequires=cres.test.socket\n\
         After=network.target cres.test.socket\n\n[Service]\nType=exec\n\
         ExecStart=python3 /srv/a.py -v\nStandardInput=socket\nStandardOutput=journal\n\
         StandardError=journal\n\n[Install]\nWantedBy=default.target\n"
    );
}

#[test]
fn socket_unit_text() {
    assert_eq!(
        test_service().socket_unit("/home/u"),
        "[Unit]\nDescription=Socket unit for 'cres.test.service'\n\n[Socket]\n\
         ListenFIFO=/home/u/.crescent/apps//test/stdin\n\n[Install]\nWantedBy=sockets.target\n"
    );
}

#[test]
fn is_running_reads_is_active() {
    let system = test_service();
    assert!(system.is_running("active\n"));
    assert!(system.is_running("  active  "));
    assert!(!system.is_running("inactive\n"));
    assert!(!system.is_running("activating\n"));
    assert!(!system.is_running(""));
}

#[test]
fn is_enabled_reads_is_enabled() {
    let system = test_service();
    assert!(system.is_enabled("enabled\n"));
    assert!(!system.is_enabled("disabled\n"));
    assert!(!system.is_enabled("enabled-runtime\n"));
    assert!(!system.is_enabled(""));
}

#[test]
fn raw_status_is_handed_on() {
    match test_service().status(STATUS, true, "/home/u") {
        Ok(StatusOutput::Raw(text)) => assert_eq!(text, STATUS),
        other => panic!("unexpected {:?}", other),
    }
    match test_service().status("nothing useful", true, "/home/u") {
        Ok(StatusOutput::Raw(text)) => assert_eq!(text, "nothing useful"),
        other => panic!("unexpected {:?}", other),
    }
}

#[test]
fn status_of_an_active_service() {
    match test_service().status(STATUS, false, "/home/u") {
        Ok(StatusOutput::Pretty(status)) => {
            assert_eq!(status.script, "/home/u/.config/systemd/user/cres.test.service");
            assert_eq!(status.stdin, "/home/u/.crescent/apps/test/test.stdin");
            assert_eq!(status.pid, 1234);
            assert_eq!(status.active, "active (running)");
            assert_eq!(status.cmd, "1 (limit: 4915)");
        }
        other => panic!("unexpected {:?}", other),
    }
}

#[test]
fn status_of_an_inactive_service_stays_raw() {
    let text = "\u{25cb} cres.test.service\n     Loaded: loaded (/x; disabled)\n     Active: inactive (dead)\n";
    match test_service().status(text, false, "/home/u") {
        Ok(StatusOutput::Raw(raw)) => assert_eq!(raw, text),
        other => panic!("unexpected {:?}", other),
    }
}

#[test]
fn status_lines_that_are_missing() {
    let system = test_service();
    assert_eq!(system.status("", false, "/h").unwrap_err(), StatusError::LoadedMissing);
    assert_eq!(
        system.status("Active: active\nLoaded: loaded (/x;)\n", false, "/h").unwrap_err(),
        StatusError::ActiveMissing
    );
    assert_eq!(
        system.status("Loaded: loaded (/x;)\nActive: active (running)\n", false, "/h").unwrap_err(),
        StatusError::PidMissing
    );
    assert_eq!(
        system
            .status("Loaded: (/x;)\nActive: active\nMain PID: none (x)\nCGroup: /\n  a b\n", false, "/h")
            .unwrap_err(),
        StatusError::PidInvalid
    );
    assert_eq!(
        system
            .status("Loaded: (/x;)\nActive: active\nMain PID:1234\nCGroup: /\n  a b\n", false, "/h")
            .unwrap_err(),
        StatusError::PidInvalid
    );
    assert_eq!(
        system.status("Loaded: (/x;)\nActive: active\nMain PID: 12 (x)\n", false, "/h").unwrap_err(),
        StatusError::CGroupMissing
    );
}

#[test]
fn status_takes_a_plus_sign_before_the_pid() {
    let text = "Loaded: loaded\nActive: active\nMain PID: +12 (x)\nCGroup: /\n";
    match test_service().status(text, false, "/h") {
        Ok(StatusOutput::Pretty(status)) => {
            assert_eq!(status.pid, 12);
            assert_eq!(status.script, "");
            assert_eq!(status.active, "active");
            assert_eq!(status.cmd, "active");
        }
        other => panic!("unexpected {:?}", other),
    }
}

#[test]
fn listed_units() {
    let out = "UNIT FILE                 STATE    PRESET\n\
               cres.echo1.service        disabled enabled\n\
               cres.echo1.socket         disabled enabled\n\
               dbus.service              static   -\n\
               cres.bot.service          enabled  enabled\n\
               \n3 unit files listed.\n";
    assert_eq!(test_service().list(out), vec!["cres.echo1.service", "cres.bot.service"]);
    assert_eq!(test_service().list(""), Vec::<String>::new());
}
