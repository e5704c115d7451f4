use crescent::crescent::{
    crescent_dir, get_apps_dir, get_profile, get_profiles_dir, profile_path, Profile,
};

fn example_profile() -> Profile {
    Profile {
        __comment: Some(String::from("Example profile")),
        __version: Some(1),
        file_path: None,
        name: Some(String::from("example")),
        interpreter: Some(String::from("python3")),
        interpreter_arguments: Some(vec![String::from("-O")]),
        application_arguments: Some(vec![String::from("--log=info"), String::from("-a")]),
        stop_command: Some(String::from("stop")),
    }
}

#[test]
fn unit_crescent_dir() {
    let home = "/home/user";
    let mut home_path = std::path::PathBuf::from(home);
    home_path.push(".crescent");

    assert_eq!(std::path::PathBuf::from(crescent_dir(home)), home_path);
}

#[test]
fn unit_get_profiles_dir() {
    assert_eq!(get_profiles_dir("/home/user"), "/home/user/.crescent/profiles");
    assert_eq!(get_apps_dir("/home/user/"), "/home/user/.crescent/apps");
}

#[test]
fn unit_get_profile() {
    let profile = get_profile(&String::from("example"), Some(example_profile())).unwrap();
    assert!(profile.__comment.is_some());

    let err = get_profile(&String::from("does-not-exist"), None).unwrap_err();
    assert_eq!(err.message(), "Profile not found.");
}

#[test]
fn json_profile_file_path() {
    assert_eq!(profile_path("/home/user", "example"), "/home/user/.crescent/profiles/example.json");
}

#[test]
fn json_profile_argv() {
    let profile = example_profile();
    assert_eq!(
        profile.cmd("/srv/app.py"),
        vec!["python3", "-O", "/srv/app.py", "--log=info", "-a"]
    );
    let bare = Profile {
        __comment: None,
        __version: None,
        file_path: None,
        name: None,
        interpreter: None,
        interpreter_arguments: Some(vec![String::from("ignored")]),
        application_arguments: None,
        stop_command: None,
    };
    assert_eq!(bare.cmd("/bin/cat"), vec!["/bin/cat"]);
}
