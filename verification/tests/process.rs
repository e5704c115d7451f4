use crescent::error::CrescentError;
use crescent::process::{pid_line, process_pid_by_name, Application};

#[test]
fn unit_new_application_struct() {
    let name = String::from("app_name");
    let file_path = String::from("/tmp/crescent_application_file");
    let interpreter = String::from("java");
    let arguments = String::from("argument");

    let mut application = Application::new(
        file_path.clone(),
        Some(name),
        Some(interpreter),
        Some(arguments),
        "/home/user",
    )
    .unwrap();

    assert_eq!(application.name, "app_name");
    assert_eq!(application.file_path, file_path);
    assert_eq!(application.interpreter, "java");
    assert_eq!(application.args, vec!["-jar", &file_path, "argument"]);

    application = Application::new(file_path.clone(), None, None, None, "/home/user").unwrap();

    assert_eq!(
        application.name,
        std::path::Path::new(&file_path).file_stem().unwrap().to_str().unwrap().to_string()
    );
    assert_eq!(application.file_path, file_path);
    assert_eq!(application.interpreter, file_path);
    assert_eq!(application.args, Vec::<String>::new());
}

#[test]
fn other_interpreters_get_the_executable() {
    let app = Application::new(
        String::from("/srv/bot/main.py"),
        None,
        Some(String::from("python3")),
        None,
        "/home/user",
    )
    .unwrap();
    assert_eq!(app.name, "main");
    assert_eq!(app.interpreter, "python3");
    assert_eq!(app.args, vec!["/srv/bot/main.py"]);
    assert_eq!(app.work_dir, "/srv/bot");
    assert_eq!(app.app_dir, "/home/user/.crescent/apps/main");
    assert_eq!(app.stop_command, None);
    assert_eq!(app.cmd(), vec!["python3", "/srv/bot/main.py"]);
}

#[test]
fn empty_interpreter_runs_the_executable() {
    let app = Application::new(
        String::from("/bin/cat"),
        None,
        Some(String::new()),
        Some(String::from("-n")),
        "/home/user",
    )
    .unwrap();
    assert_eq!(app.interpreter, "/bin/cat");
    assert_eq!(app.args, vec!["-n"]);
    assert_eq!(app.cmd(), vec!["/bin/cat", "-n"]);
}

#[test]
fn path_without_a_file_is_refused() {
    let err = Application::new(String::from("/"), None, None, None, "/home/user").unwrap_err();
    assert_eq!(err, CrescentError::ExecutablePathNotFound);
    let err =
        Application::new(String::from("/"), Some(String::from("x")), None, None, "/home/user")
            .unwrap_err();
    assert_eq!(err, CrescentError::ExecutablePathNotFound);
}

#[test]
fn stop_command_is_kept() {
    let app = Application::new(String::from("/bin/cat"), None, None, None, "/home/user")
        .unwrap()
        .with_stop_command(Some(String::from("quit")));
    assert_eq!(app.stop_command.as_deref(), Some("quit"));
    assert_eq!(app.name, "cat");
}

#[test]
fn pid_file_with_two_lines() {
    assert_eq!(process_pid_by_name(Some("100\n200\n")), Ok(vec![100, 200]));
    assert_eq!(process_pid_by_name(Some("100\n200")), Ok(vec![100, 200]));
    assert_eq!(process_pid_by_name(Some("100\n\n200\n\n")), Ok(vec![100, 200]));
    assert_eq!(process_pid_by_name(Some("1\n2\n3\n")), Ok(vec![1, 2]));
}

#[test]
fn pid_file_missing_or_short() {
    assert_eq!(process_pid_by_name(None), Ok(vec![]));
    assert_eq!(process_pid_by_name(Some("")), Ok(vec![]));
    assert_eq!(process_pid_by_name(Some("\n\n")), Ok(vec![]));
    assert_eq!(process_pid_by_name(Some("100\n")), Ok(vec![100]));
}

#[test]
fn pid_file_with_bad_lines() {
    assert_eq!(process_pid_by_name(Some("abc\n")), Err(CrescentError::InvalidPidFile));
    assert_eq!(process_pid_by_name(Some("100\nx\n")), Err(CrescentError::InvalidPidFile));
    assert_eq!(process_pid_by_name(Some("100\r\n200\r\n")), Err(CrescentError::InvalidPidFile));
    assert_eq!(process_pid_by_name(Some("4294967296\n")), Err(CrescentError::InvalidPidFile));
    assert_eq!(process_pid_by_name(Some("4294967295\n")), Ok(vec![4294967295]));
    assert_eq!(process_pid_by_name(Some("-5\n")), Err(CrescentError::InvalidPidFile));
}

#[test]
fn pid_lines_are_read_back() {
    let content = format!("{}{}", pid_line(31337), pid_line(42));
    assert_eq!(content, "31337\n42\n");
    assert_eq!(process_pid_by_name(Some(&content)), Ok(vec![31337, 42]));
    assert_eq!(content.lines().filter(|l| !l.is_empty()).count(), 2);
}
