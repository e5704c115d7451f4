use crescent::directory::{
    app_already_exist, application_dir_by_name, crescent_dir, file_name, file_stem, log_path,
    parent, pid_path, socket_path,
};

#[test]
fn crescent_dir_created() {
    let home = "/home/user";
    let mut home_path = std::path::PathBuf::from(home);
    home_path.push(".crescent");

    assert_eq!(std::path::PathBuf::from(crescent_dir(home)), home_path);
}

#[test]
fn application_dir_created() {
    let home = "/home/user";
    let mut home_path = std::path::PathBuf::from(crescent_dir(home));
    home_path.push("apps");
    home_path.push("test_app");
    let app_name = String::from("test_app");

    assert_eq!(std::path::PathBuf::from(application_dir_by_name(home, &app_name)), home_path);
}

#[test]
fn well_known_files() {
    assert_eq!(socket_path("/home/u", "echo1"), "/home/u/.crescent/apps/echo1/echo1.sock");
    assert_eq!(pid_path("/home/u", "echo1"), "/home/u/.crescent/apps/echo1/echo1.pid");
    assert_eq!(log_path("/home/u/", "echo1"), "/home/u/.crescent/apps/echo1/echo1.log");
}

#[test]
fn joining_follows_the_path_rules() {
    for (home, name) in [("/home/u", "a"), ("/home/u/", "a"), ("", "a"), ("/home/u", "/abs")] {
        let mut expected = std::path::PathBuf::from(home);
        expected.push(".crescent");
        expected.push("apps");
        expected.push(name);
        assert_eq!(std::path::PathBuf::from(application_dir_by_name(home, name)), expected);
    }
}

#[test]
fn file_names_and_stems() {
    assert_eq!(file_name("/srv/app/server.tar.gz").as_deref(), Some("server.tar.gz"));
    assert_eq!(file_stem("/srv/app/server.tar.gz").as_deref(), Some("server.tar"));
    assert_eq!(file_stem("/srv/app/server.py").as_deref(), Some("server"));
    assert_eq!(file_stem("/srv/app/server").as_deref(), Some("server"));
    assert_eq!(file_stem("/srv/app/.hidden").as_deref(), Some(".hidden"));
    assert_eq!(file_stem("/srv/app/dir/").as_deref(), Some("dir"));
    assert_eq!(file_stem("relative.sh").as_deref(), Some("relative"));
    assert_eq!(file_stem("/"), None);
    assert_eq!(file_stem(""), None);
    assert_eq!(file_stem("/srv/.."), None);
}

#[test]
fn file_stem_agrees_with_the_standard_library() {
    for path in ["/a/b.c", "/a/b", "/a/.b", "/a/b.c.d", "a.b", "/a/b/", "/", "", "/a/.."] {
        let expected = std::path::Path::new(path)
            .file_stem()
            .map(|s| s.to_str().unwrap().to_string());
        assert_eq!(file_stem(path), expected);
    }
}

#[test]
fn parents() {
    assert_eq!(parent("/srv/app/server.py").as_deref(), Some("/srv/app"));
    assert_eq!(parent("/server.py").as_deref(), Some("/"));
    assert_eq!(parent("server.py").as_deref(), Some(""));
    assert_eq!(parent("/srv/app/").as_deref(), Some("/srv"));
    assert_eq!(parent("/"), None);
    assert_eq!(parent(""), None);
}

#[test]
fn supervisor_must_be_alive() {
    assert!(app_already_exist(&vec![10, 11], true));
    assert!(app_already_exist(&vec![10], true));
    assert!(!app_already_exist(&vec![10, 11], false));
    assert!(!app_already_exist(&vec![], true));
}
