use crescent::error::CrescentError;
use crescent::process::Application;
use crescent::snapshot::{decode_app_info, encode_app_info};
use crescent::subprocess::{
    after_stdin_write, cleanup, input_of_bytes, next_startup_step, startup_failure, SocketEvent,
    StartupStep, Supervisor, WriteOutcome, FRAME_SIZE,
};

fn cat_supervisor(stop_command: Option<&str>) -> Supervisor {
    let app = Application::new(
        String::from("/bin/cat"),
        Some(String::from("echo1")),
        None,
        None,
        "/home/user",
    )
    .unwrap()
    .with_stop_command(stop_command.map(String::from));
    Supervisor::new(app, 4242)
}

#[test]
fn ping_is_written_as_an_object() {
    assert_eq!(SocketEvent::Ping.encode(), b"{\"Ping\":null}".to_vec());
    assert_eq!(SocketEvent::Stop.encode(), b"{\"Stop\":null}".to_vec());
    let request = SocketEvent::RetrieveAppInfo(Box::new(Application::placeholder()));
    assert_eq!(
        String::from_utf8(request.encode()).unwrap(),
        "{\"RetrieveAppInfo\":{\"name\":\"\",\"interpreter\":\"\",\"args\":[],\
         \"file_path\":\"\",\"app_dir\":\"\",\"work_dir\":\"\",\"stop_command\":null}}"
    );
}

#[test]
fn write_stdin_is_written_with_its_text() {
    let event = SocketEvent::WriteStdin(String::from("say hi"));
    assert_eq!(event.encode(), b"{\"WriteStdin\":\"say hi\"}".to_vec());
}

#[test]
fn command_history_is_written_as_a_list() {
    let event = SocketEvent::CommandHistory(vec![String::from("prev"), String::from("earlier")]);
    assert_eq!(event.encode(), b"{\"CommandHistory\":[\"prev\",\"earlier\"]}".to_vec());
    let empty = SocketEvent::CommandHistory(vec![]);
    assert_eq!(empty.encode(), b"{\"CommandHistory\":[]}".to_vec());
}

#[test]
fn special_characters_are_escaped() {
    let event = SocketEvent::WriteStdin(String::from("a\"b\\c\nd\te\u{1}f\u{e9}"));
    let bytes = event.encode();
    assert_eq!(
        String::from_utf8(bytes.clone()).unwrap(),
        "{\"WriteStdin\":\"a\\\"b\\\\c\\nd\\te\\u0001f\u{e9}\"}"
    );
    match SocketEvent::decode(&bytes) {
        Some(SocketEvent::WriteStdin(text)) => assert_eq!(text, "a\"b\\c\nd\te\u{1}f\u{e9}"),
        other => panic!("unexpected {:?}", other),
    }
}

#[test]
fn every_event_survives_encoding_and_decoding() {
    assert!(matches!(SocketEvent::decode(&SocketEvent::Ping.encode()), Some(SocketEvent::Ping)));
    assert!(matches!(SocketEvent::decode(&SocketEvent::Stop.encode()), Some(SocketEvent::Stop)));
    let app = Application::new(
        String::from("/bin/cat"),
        Some(String::from("echo1")),
        None,
        Some(String::from("-n")),
        "/home/user",
    )
    .unwrap()
    .with_stop_command(Some(String::from("quit")));
    match SocketEvent::decode(&SocketEvent::RetrieveAppInfo(Box::new(app)).encode()) {
        Some(SocketEvent::RetrieveAppInfo(got)) => {
            assert_eq!(got.name, "echo1");
            assert_eq!(got.interpreter, "/bin/cat");
            assert_eq!(got.args, vec!["-n"]);
            assert_eq!(got.work_dir, "/bin");
            assert_eq!(got.stop_command.as_deref(), Some("quit"));
        }
        other => panic!("unexpected {:?}", other),
    }
    match SocketEvent::decode(b"{\"RetrieveAppInfo\":{}}") {
        Some(SocketEvent::RetrieveAppInfo(got)) => {
            assert_eq!(got.name, "");
            assert_eq!(got.args, Vec::<String>::new());
            assert_eq!(got.stop_command, None);
        }
        other => panic!("unexpected {:?}", other),
    }
    let list = vec![String::from("b"), String::from(""), String::from("a,]\"")];
    match SocketEvent::decode(&SocketEvent::CommandHistory(list.clone()).encode()) {
        Some(SocketEvent::CommandHistory(got)) => assert_eq!(got, list),
        other => panic!("unexpected {:?}", other),
    }
}

#[test]
fn decoding_takes_white_space_and_bare_names() {
    assert!(matches!(SocketEvent::decode(b" { \"Ping\" : null } "), Some(SocketEvent::Ping)));
    assert!(matches!(SocketEvent::decode(b"\"Ping\""), Some(SocketEvent::Ping)));
    assert!(matches!(SocketEvent::decode(b"\"Stop\""), Some(SocketEvent::Stop)));
    match SocketEvent::decode(b"{\"CommandHistory\": [ \"x\" , \"y\" ]}") {
        Some(SocketEvent::CommandHistory(got)) => assert_eq!(got, vec!["x", "y"]),
        other => panic!("unexpected {:?}", other),
    }
    match SocketEvent::decode(b"{\"WriteStdin\":\"\\u0041\\/\"}trailing") {
        Some(SocketEvent::WriteStdin(text)) => assert_eq!(text, "A/"),
        other => panic!("unexpected {:?}", other),
    }
}

#[test]
fn malformed_frames_tell_no_event() {
    assert!(SocketEvent::decode(b"").is_none());
    assert!(SocketEvent::decode(b"{\"Unknown\":null}").is_none());
    assert!(SocketEvent::decode(b"{\"Ping\":nul").is_none());
    assert!(SocketEvent::decode(b"{\"Ping\":null").is_none());
    assert!(SocketEvent::decode(b"{\"WriteStdin\":\"open").is_none());
    assert!(SocketEvent::decode(b"{\"WriteStdin\":\"\\ud800\"}").is_none());
    assert!(SocketEvent::decode(b"{\"WriteStdin\":\"\\ude00\"}").is_none());
    assert!(SocketEvent::decode(b"{\"WriteStdin\":\"\\ud83d\\u0041\"}").is_none());
    assert!(SocketEvent::decode(b"{\"WriteStdin\":\"\\ud83dx\"}").is_none());
    assert!(SocketEvent::decode(b"{\"WriteStdin\":\"\\ud83d\\ude0\"}").is_none());
    assert!(SocketEvent::decode(b"{\"WriteStdin\":\"raw\nnewline\"}").is_none());
    assert!(SocketEvent::decode(b"\"WriteStdin\"").is_none());
    assert!(SocketEvent::decode(&[0xff, 0xfe]).is_none());
}

#[test]
fn launch_send_observe() {
    let mut supervisor = cat_supervisor(None);
    let reaction = supervisor.handle_frame(b"{\"WriteStdin\":\"hello\"}").unwrap();
    assert_eq!(reaction.stdin.as_deref(), Some("hello\n"));
    assert!(reaction.reply.is_none());
    assert!(reaction.signal.is_none());
    assert!(!reaction.close);
    assert_eq!(supervisor.command_history, vec!["hello"]);
    let ping = supervisor.handle_event(SocketEvent::Ping);
    assert_eq!(ping.reply, Some(b"{\"Ping\":null}".to_vec()));
}

#[test]
fn write_stdin_goes_to_the_front_of_the_history() {
    let mut supervisor = cat_supervisor(None);
    supervisor.handle_event(SocketEvent::WriteStdin(String::from("a")));
    let reaction = supervisor.handle_event(SocketEvent::WriteStdin(String::from("  b  ")));
    assert_eq!(reaction.stdin.as_deref(), Some("b\n"));
    assert_eq!(supervisor.command_history, vec!["  b  ", "a"]);
    supervisor.handle_event(SocketEvent::WriteStdin(String::from("a")));
    assert_eq!(supervisor.command_history, vec!["a", "  b  ", "a"]);
}

#[test]
fn blank_write_stdin_is_dropped() {
    let mut supervisor = cat_supervisor(None);
    for text in ["", " ", "\t\n"] {
        let reaction = supervisor.handle_event(SocketEvent::WriteStdin(String::from(text)));
        assert!(reaction.stdin.is_none());
        assert!(reaction.reply.is_none());
        assert!(reaction.signal.is_none());
    }
    assert!(supervisor.command_history.is_empty());
}

#[test]
fn command_history_request_reads_only() {
    let mut supervisor = cat_supervisor(None);
    supervisor.handle_event(SocketEvent::WriteStdin(String::from("a")));
    supervisor.handle_event(SocketEvent::WriteStdin(String::from("b")));
    let reaction =
        supervisor.handle_event(SocketEvent::CommandHistory(vec![String::from("ignored")]));
    assert_eq!(reaction.reply, Some(b"{\"CommandHistory\":[\"b\",\"a\"]}".to_vec()));
    assert_eq!(supervisor.command_history, vec!["b", "a"]);
}

#[test]
fn two_pings_are_both_answered() {
    let mut supervisor = cat_supervisor(None);
    for _ in 0..2 {
        let reaction = supervisor.handle_frame(b"{\"Ping\":null}").unwrap();
        let reply = reaction.reply.unwrap();
        assert!(matches!(SocketEvent::decode(&reply), Some(SocketEvent::Ping)));
    }
}

#[test]
fn stop_with_stop_command() {
    let mut supervisor = cat_supervisor(Some("quit"));
    let reaction = supervisor.handle_event(SocketEvent::Stop);
    assert_eq!(reaction.stdin.as_deref(), Some("quit\n"));
    assert!(reaction.signal.is_none());
    assert!(!reaction.close);
}

#[test]
fn stop_without_stop_command_sends_sigterm() {
    let mut supervisor = cat_supervisor(None);
    let reaction = supervisor.handle_event(SocketEvent::Stop);
    assert!(reaction.stdin.is_none());
    assert_eq!(reaction.signal, Some(15));
    assert!(reaction.close);
}

#[test]
fn malformed_frame_changes_nothing() {
    let mut supervisor = cat_supervisor(None);
    supervisor.handle_event(SocketEvent::WriteStdin(String::from("a")));
    assert!(supervisor.handle_frame(b"{\"Bogus\":1}").is_none());
    assert_eq!(supervisor.command_history, vec!["a"]);
}

#[test]
fn app_info_snapshot() {
    let mut supervisor = cat_supervisor(Some("quit"));
    let reaction =
        supervisor.handle_event(SocketEvent::RetrieveAppInfo(Box::new(Application::placeholder())));
    assert_eq!(
        String::from_utf8(reaction.reply.unwrap()).unwrap(),
        "{\"name\":\"echo1\",\"interpreter\":\"/bin/cat\",\"args\":[],\
         \"file_path\":\"/bin/cat\",\"app_dir\":\"/home/user/.crescent/apps/echo1\",\
         \"work_dir\":\"/bin\",\"stop_command\":\"quit\"}"
    );
}

#[test]
fn app_info_snapshot_is_read_back() {
    let app = Application::new(
        String::from("/srv/my \"bot\"/main.py"),
        Some(String::from("bot")),
        Some(String::from("python3")),
        Some(String::from("--token=a,b ]")),
        "/home/user",
    )
    .unwrap();
    for stop in [None, Some(String::from("stop now\n")), Some(String::from("null"))] {
        let app = Application::new(
            app.file_path.clone(),
            Some(app.name.clone()),
            Some(String::from("python3")),
            Some(String::from("--token=a,b ]")),
            "/home/user",
        )
        .unwrap()
        .with_stop_command(stop.clone());
        let bytes = encode_app_info(&app);
        let back = decode_app_info(&bytes).unwrap();
        assert_eq!(back.name, "bot");
        assert_eq!(back.interpreter, "python3");
        assert_eq!(back.args, vec!["/srv/my \"bot\"/main.py", "--token=a,b ]"]);
        assert_eq!(back.file_path, "/srv/my \"bot\"/main.py");
        assert_eq!(back.app_dir, "/home/user/.crescent/apps/bot");
        assert_eq!(back.work_dir, "/srv/my \"bot\"");
        assert_eq!(back.stop_command, stop);
    }
}

#[test]
fn app_info_with_members_out_of_order_is_refused() {
    assert!(decode_app_info(b"{}").is_none());
    assert!(decode_app_info(b"").is_none());
    assert!(decode_app_info(
        b"{\"interpreter\":\"a\",\"name\":\"b\",\"args\":[],\"file_path\":\"c\",\
          \"app_dir\":\"d\",\"work_dir\":\"e\",\"stop_command\":null}"
    )
    .is_none());
    let spaced = b" { \"name\" : \"b\" , \"interpreter\":\"a\",\"args\": [ ] ,\"file_path\":\"c\",\
                   \"app_dir\":\"d\",\"work_dir\":\"e\",\"stop_command\": null } ";
    let app = decode_app_info(spaced).unwrap();
    assert_eq!(app.name, "b");
    assert_eq!(app.stop_command, None);
}

#[test]
fn startup_steps_and_failures() {
    let mut steps = vec![StartupStep::Spawn];
    while let Some(next) = next_startup_step(*steps.last().unwrap()) {
        steps.push(next);
    }
    assert_eq!(
        steps,
        vec![
            StartupStep::Spawn,
            StartupStep::CheckRunning,
            StartupStep::TakeStdin,
            StartupStep::AppendPid,
            StartupStep::BindSocket
        ]
    );
    assert!(!startup_failure(StartupStep::Spawn).terminate_child);
    assert!(!startup_failure(StartupStep::CheckRunning).terminate_child);
    assert_eq!(
        startup_failure(StartupStep::CheckRunning).error,
        CrescentError::SubprocessFailedToStart
    );
    assert!(startup_failure(StartupStep::TakeStdin).terminate_child);
    assert!(startup_failure(StartupStep::AppendPid).terminate_child);
    assert_eq!(startup_failure(StartupStep::AppendPid).error, CrescentError::PidFileWrite);
    assert!(startup_failure(StartupStep::BindSocket).terminate_child);
    assert_eq!(startup_failure(StartupStep::BindSocket).error, CrescentError::SocketBindError);
}

#[test]
fn broken_pipe_terminates_the_child() {
    let ok = after_stdin_write(WriteOutcome::Written);
    assert_eq!((ok.signal, ok.close_writer, ok.report), (None, false, false));
    let broken = after_stdin_write(WriteOutcome::BrokenPipe);
    assert_eq!((broken.signal, broken.close_writer, broken.report), (Some(15), true, true));
    let failed = after_stdin_write(WriteOutcome::Failed);
    assert_eq!((failed.signal, failed.close_writer, failed.report), (None, false, true));
}

#[test]
fn shutdown_removes_the_socket_and_keeps_the_pid_file() {
    for child_exited in [true, false] {
        for socket_exists in [true, false] {
            let plan = cleanup(child_exited, socket_exists);
            assert_eq!(plan.remove_socket, socket_exists);
            assert!(!plan.remove_pid_file);
            assert_eq!(plan.terminate_child, !child_exited);
        }
    }
}

#[test]
fn plain_input_must_be_text() {
    assert_eq!(input_of_bytes(b"say hi\n").as_deref(), Some("say hi\n"));
    assert_eq!(input_of_bytes(&[0x66, 0xff]), None);
}

#[test]
fn messages_fit_into_one_read() {
    assert_eq!(FRAME_SIZE, 1024);
    assert!(SocketEvent::Ping.encode().len() <= FRAME_SIZE);
    assert!(SocketEvent::Stop.encode().len() <= FRAME_SIZE);
}

#[test]
fn what_follows_a_message_is_left_aside() {
    assert!(matches!(
        SocketEvent::decode(b"{\"Ping\":null}{\"Stop\":null}"),
        Some(SocketEvent::Ping)
    ));
    let mut frame = SocketEvent::WriteStdin(String::from("a")).encode();
    frame.extend_from_slice("} half a \"message \u{e9}".as_bytes());
    match SocketEvent::decode(&frame) {
        Some(SocketEvent::WriteStdin(text)) => assert_eq!(text, "a"),
        other => panic!("unexpected {:?}", other),
    }
}

#[test]
fn surrogate_pairs_are_read_as_one_character() {
    match SocketEvent::decode(b"{\"WriteStdin\":\"a\\ud83d\\ude00b\\uD800\\uDC00\\udbff\\udfff\"}") {
        Some(SocketEvent::WriteStdin(text)) => {
            assert_eq!(text, "a\u{1f600}b\u{10000}\u{10ffff}")
        }
        other => panic!("unexpected {:?}", other),
    }
    match SocketEvent::decode(b"{\"CommandHistory\":[\"\\ud83d\\ude00\",\"\\u00e9\"]}") {
        Some(SocketEvent::CommandHistory(list)) => assert_eq!(list, vec!["\u{1f600}", "\u{e9}"]),
        other => panic!("unexpected {:?}", other),
    }
}
