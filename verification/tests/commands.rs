use crescent::commands::edit::{EditArgs, EditKind};
use crescent::commands::enable::{DisableArgs, EnableArgs};
use crescent::commands::kill::KillArgs;
use crescent::commands::list::ListArgs;
use crescent::commands::log::LogArgs;
use crescent::commands::profile::{ProfileArgs, ProfileOutput};
use crescent::commands::reload::ReloadArgs;
use crescent::commands::restart::RestartArgs;
use crescent::commands::save::SaveArgs;
use crescent::commands::send::SendArgs;
use crescent::commands::status::{supervised_status, StatusArgs};
use crescent::commands::stop::StopArgs;
use crescent::error::CrescentError;
use crescent::logger::{LogSystem, Logger};
use crescent::loggers::journald::Journald;
use crescent::process::Application;
use crescent::profile::{ProfileError, Profiles};
use crescent::service::{Status, StatusOutput};
use crescent::commands::log::log_output;

fn sample_status() -> Status {
    Status {
        script: String::from("/home/u/.config/systemd/user/cres.echo1.service"),
        stdin: String::from("/home/u/.crescent/apps/echo1/echo1.stdin"),
        pid: 1234,
        active: String::from("active (running)"),
        cmd: String::from("/bin/cat"),
    }
}

#[test]
fn stop_a_service() {
    let call = StopArgs { name: String::from("echo1") }.run(true, true).unwrap();
    assert_eq!(call.arguments, vec!["--user", "--no-pager", "stop", "cres.echo1.socket"]);
    assert_eq!(call.notices, vec!["Stopping 'cres.echo1.service'"]);
    assert_eq!(call.report, "Sent stop command to 'cres.echo1.service'");
    let err = StopArgs { name: String::from("echo1") }.run(false, true).unwrap_err();
    assert_eq!(err, CrescentError::ApplicationNotFound);
    let err = StopArgs { name: String::from("echo1") }.run(true, false).unwrap_err();
    assert_eq!(err, CrescentError::ApplicationNotRunning);
}

#[test]
fn restart_a_service() {
    let call = RestartArgs { name: String::from("echo1") }.run(true, true).unwrap();
    assert_eq!(call.arguments, vec!["--user", "--no-pager", "restart", "cres.echo1.service"]);
    assert_eq!(call.notices, vec!["Restarting 'cres.echo1.service'"]);
    assert_eq!(call.report, "Sent restart command to 'cres.echo1.service'");
    assert!(RestartArgs { name: String::from("echo1") }.run(true, false).is_err());
}

#[test]
fn signal_a_service() {
    let call = KillArgs { name: String::from("echo1"), signal: 15 }.run(true, true).unwrap();
    assert_eq!(
        call.arguments,
        vec!["--user", "--no-pager", "kill", "--signal", "15", "cres.echo1.service"]
    );
    assert_eq!(call.notices, vec!["Sending signal 'cres.echo1.service'", "Signal: '15'"]);
    assert_eq!(call.report, "Sent signal to 'cres.echo1.service'");
    let call = KillArgs { name: String::from("echo1"), signal: -3 }.run(true, true).unwrap();
    assert_eq!(call.notices[1], "Signal: '-3'");
    let err = KillArgs { name: String::from("echo1"), signal: 9 }.run(false, false).unwrap_err();
    assert_eq!(err.message(), "Application does not exist.");
}

#[test]
fn enable_and_disable_a_service() {
    let call = EnableArgs { name: String::from("echo1") }.run(true).unwrap();
    assert_eq!(call.arguments, vec!["--user", "--no-pager", "enable", "cres.echo1.service"]);
    assert_eq!(call.report, "Sent enable command to 'cres.echo1.service'");
    let call = DisableArgs { name: String::from("echo1") }.run(true).unwrap();
    assert_eq!(call.arguments, vec!["--user", "--no-pager", "disable", "cres.echo1.service"]);
    assert_eq!(call.notices, vec!["Disabling 'cres.echo1.service'"]);
    assert!(EnableArgs { name: String::from("echo1") }.run(false).is_err());
    assert!(DisableArgs { name: String::from("echo1") }.run(false).is_err());
}

#[test]
fn reload_the_service_manager() {
    let call = ReloadArgs::run();
    assert_eq!(call.arguments, vec!["--user", "--no-pager", "daemon-reload"]);
    assert!(call.notices.is_empty());
    assert_eq!(call.report, "Sent reload command to the init system");
}

#[test]
fn log_of_a_service() {
    let args = LogArgs { name: String::from("echo1"), lines: 200, follow: false };
    assert_eq!(
        args.run(true).unwrap(),
        vec!["--user", "--unit", "cres.echo1.service", "--no-pager", "--lines", "200"]
    );
    let args = LogArgs { name: String::from("echo1"), lines: 5, follow: true };
    assert_eq!(
        args.run(true).unwrap(),
        vec!["--user", "--unit", "cres.echo1.service", "--no-pager", "--follow"]
    );
    let args = LogArgs { name: String::from("test_app_not_available"), lines: 5, follow: true };
    assert_eq!(args.run(false).unwrap_err().message(), "Application does not exist.");
}

#[test]
fn journal_of_an_application() {
    let journal = Journald::new(String::from("bot"));
    assert_eq!(journal.service_name(), "cres.bot.service");
    assert_eq!(Logger::get(String::from("bot")).service_name(), "cres.bot.service");
    assert_eq!(
        journal.log(0),
        vec!["--user", "--unit", "cres.bot.service", "--no-pager", "--lines", "0"]
    );
    assert_eq!(
        journal.log(u64::MAX),
        vec!["--user", "--unit", "cres.bot.service", "--no-pager", "--lines", "18446744073709551615"]
    );
}

#[test]
fn send_a_command() {
    let args = SendArgs {
        name: String::from("echo1"),
        command: vec![String::from("say"), String::from("hi")],
    };
    let sending = args.run(true).unwrap();
    assert_eq!(sending.command, "say hi");
    assert_eq!(sending.line, "say hi\n");
    assert_eq!(sending.frame, b"{\"WriteStdin\":\"say hi\"}".to_vec());
}

#[test]
fn empty_command_is_not_sent() {
    for words in [vec![], vec![""], vec![" ", "\t"], vec!["", "", ""]] {
        let args = SendArgs {
            name: String::from("echo1"),
            command: words.into_iter().map(String::from).collect(),
        };
        let err = args.run(true).unwrap_err();
        assert_eq!(err, CrescentError::EmptyCommand);
        assert_eq!(err.message(), "Command empty");
    }
    let args = SendArgs { name: String::from("echo1"), command: vec![] };
    assert_eq!(args.run(false).unwrap_err(), CrescentError::ApplicationNotFound);
}

#[test]
fn edit_opens_the_right_files() {
    let args = EditArgs { kind: EditKind::Profile, name: String::from("example") };
    assert_eq!(args.run(false, "/home/u").unwrap(), vec!["/home/u/.crescent/profiles/example.toml"]);
    let args = EditArgs { kind: EditKind::Service, name: String::from("echo1") };
    assert_eq!(
        args.run(true, "/home/u").unwrap(),
        vec![
            "/home/u/.config/systemd/user/cres.echo1.service",
            "/home/u/.config/systemd/user/cres.echo1.socket"
        ]
    );
    let args = EditArgs { kind: EditKind::Service, name: String::from("echo1") };
    assert_eq!(args.run(false, "/home/u").unwrap_err(), CrescentError::ApplicationNotFound);
}

#[test]
fn profile_command() {
    let mut profiles = Profiles::new();
    profiles.load("example.toml", "name = \"example\"\narguments = \"-a b\"\n");
    let shown = ProfileArgs { profile_name: Some(String::from("example")), default: false }
        .run(&profiles)
        .unwrap();
    match shown {
        ProfileOutput::Show(lines) => {
            assert_eq!(lines, vec!["Profile: example", "name: example", "arguments: -a b"])
        }
        other => panic!("unexpected {:?}", other),
    }
    let installs =
        ProfileArgs { profile_name: None, default: true }.run(&profiles).unwrap();
    assert!(matches!(installs, ProfileOutput::InstallDefaults));
    let err = ProfileArgs { profile_name: None, default: false }.run(&profiles).unwrap_err();
    assert_eq!(err.message(), "No profile name provided.");
    let err = ProfileArgs { profile_name: Some(String::from("x")), default: false }
        .run(&profiles)
        .unwrap_err();
    assert_eq!(err, ProfileError::NotFound(String::from("x")));
    assert_eq!(err.message(), "Profile 'x' not found.");
}

#[test]
fn status_lines() {
    let args = StatusArgs { name: String::from("echo1"), raw: false };
    let lines = args.run(true, &StatusOutput::Pretty(sample_status()), true).unwrap();
    assert_eq!(
        lines,
        vec![
            "Application information",
            "Name: echo1",
            "Status: active (running)",
            "Script: /home/u/.config/systemd/user/cres.echo1.service",
            "Stdin: /home/u/.crescent/apps/echo1/echo1.stdin",
            "Enabled: true",
            "",
            "Service information",
            "PID: 1234",
            "CMD: /bin/cat",
        ]
    );
    let args = StatusArgs { name: String::from("echo1"), raw: true };
    let lines = args.run(true, &StatusOutput::Raw(String::from("as printed\n")), false).unwrap();
    assert_eq!(lines, vec!["as printed\n"]);
    let args = StatusArgs { name: String::from("test_app_not_available"), raw: true };
    let err = args.run(false, &StatusOutput::Raw(String::new()), false).unwrap_err();
    assert_eq!(err.message(), "Application does not exist.");
}

#[test]
fn list_without_services() {
    assert_eq!(ListArgs::run(&vec![]), vec!["No services found."]);
}

#[test]
fn list_table() {
    assert_eq!(ListArgs::service_name("cres.echo1.service"), "echo1");
    assert_eq!(ListArgs::service_name("cres.cres.a.service.service"), "a");
    assert_eq!(ListArgs::service_name("other"), "other");
    let status = sample_status();
    let rows = vec![
        ListArgs::row(String::from("echo1"), Some(&status), Some(1800), true),
        ListArgs::row(String::from("long_application_name"), None, Some(5), false),
        ListArgs::row(String::from("gone"), Some(&status), None, false),
    ];
    assert_eq!(rows[0].uptime, "30 minutes");
    assert_eq!(rows[1].uptime, "N/A");
    assert_eq!(rows[2].uptime, "N/A");
    assert_eq!(
        ListArgs::run(&rows),
        vec![
            "Name                    PID    Status             Uptime       Enabled   ",
            "--------------------- | ---- | ---------------- | ---------- | ------- | ",
            "echo1                   1234   active (running)   30 minutes   true      ",
            "long_application_name   N/A    N/A                N/A          false     ",
            "gone                    1234   active (running)   N/A          false     ",
        ]
    );
}

#[test]
fn list_widths_count_bytes() {
    let rows = vec![ListArgs::row(String::from("\u{e9}\u{e9}\u{e9}"), None, None, true)];
    let lines = ListArgs::run(&rows);
    assert_eq!(lines[0], format!("{:<6}   {:<3}   {:<6}   {:<6}   {:<7}   ", "Name", "PID", "Status", "Uptime", "Enabled"));
    assert_eq!(lines[2], format!("{:<6}   {:<3}   {:<6}   {:<6}   {:<7}   ", "\u{e9}\u{e9}\u{e9}", "N/A", "N/A", "N/A", "true"));
}

#[test]
fn save_running_applications() {
    let plan = SaveArgs.run(vec![], "/home/u");
    assert_eq!(plan.lines, vec!["No application running."]);
    assert!(plan.path.is_none());
    assert!(plan.file.is_none());
    let apps = vec![
        Application::new(String::from("/bin/cat"), Some(String::from("a")), None, None, "/home/u")
            .unwrap(),
        Application::new(String::from("/bin/cat"), Some(String::from("b")), None, None, "/home/u")
            .unwrap(),
    ];
    let plan = SaveArgs.run(apps, "/home/u");
    assert_eq!(plan.lines, vec!["Saved 2 apps:", "a", "b"]);
    assert_eq!(plan.path.as_deref(), Some("/home/u/.crescent/apps.json"));
    assert_eq!(plan.file.unwrap().apps.len(), 2);
}

#[test]
fn log_empty_file() {
    assert_eq!(log_output(vec![]), vec!["Log is empty at the moment."]);
    assert_eq!(log_output(vec![String::from(">> Printed")]), vec![">> Printed"]);
}

#[test]
fn status_of_a_supervised_application() {
    let app = Application::new(
        String::from("/srv/bot/main.py"),
        Some(String::from("bot")),
        Some(String::from("python3")),
        Some(String::from("-v")),
        "/home/u",
    )
    .unwrap();
    let status = supervised_status(&app, 77, "/home/u");
    assert_eq!(status.script, "/srv/bot/main.py");
    assert_eq!(status.stdin, "/home/u/.crescent/apps/bot/bot.sock");
    assert_eq!(status.pid, 77);
    assert_eq!(status.active, "active (running)");
    assert_eq!(status.cmd, "python3 /srv/bot/main.py -v");
}
