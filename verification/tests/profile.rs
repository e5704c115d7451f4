use crescent::profile::{
    Profile, ProfileError, Profiles, EXAMPLE_PROFILE, MC_10G_SERVER_PROFILE, VELOCITY_PROXY_PROFILE,
};

#[test]
fn new_profile_sets_nothing() {
    let profile = Profile::new();
    assert_eq!(profile.exec_path, None);
    assert_eq!(profile.name, None);
    assert_eq!(profile.interpreter, None);
    assert_eq!(profile.arguments, None);
}

#[test]
fn example_profile_is_parsed() {
    let mut profile = Profile::new();
    profile.parse_profile(EXAMPLE_PROFILE);
    assert_eq!(profile.name.as_deref(), Some("example"));
    assert_eq!(profile.interpreter.as_deref(), Some("python3 -O"));
    assert_eq!(profile.exec_path, None);
    assert_eq!(profile.arguments.as_deref(), Some("--log=info -a b"));
}

#[test]
fn other_default_profiles_are_parsed() {
    let mut profile = Profile::new();
    profile.parse_profile(MC_10G_SERVER_PROFILE);
    assert_eq!(profile.name.as_deref(), Some("minecraft"));
    assert_eq!(profile.arguments.as_deref(), Some("--nogui"));
    assert!(profile.interpreter.as_deref().unwrap().starts_with("java -Xms10G"));
    assert!(profile.interpreter.as_deref().unwrap().ends_with("-jar"));
    let mut profile = Profile::new();
    profile.parse_profile(VELOCITY_PROXY_PROFILE);
    assert_eq!(profile.name.as_deref(), Some("velocity"));
    assert_eq!(profile.arguments, None);
}

#[test]
fn profile_lines_are_read_one_by_one() {
    let mut profile = Profile::new();
    profile.parse_profile(
        "  # comment = \"x\"\n\nexec_path = \"/bin/cat\"\r\nname=first\nname = \"second\"\n\
         unknown = \"y\"\narguments = \"\"\ninterpreter =   \"\"sh -c\"\"  \nno equals sign\n\
         arguments = a = b\n",
    );
    assert_eq!(profile.exec_path.as_deref(), Some("/bin/cat"));
    assert_eq!(profile.name.as_deref(), Some("second"));
    assert_eq!(profile.interpreter.as_deref(), Some("sh -c"));
    assert_eq!(profile.arguments.as_deref(), Some("a = b"));
}

#[test]
fn parsing_keeps_what_is_not_set_again() {
    let mut profile = Profile::new();
    profile.parse_profile("name = \"a\"\n");
    profile.parse_profile("interpreter = \"sh\"\n");
    assert_eq!(profile.name.as_deref(), Some("a"));
    assert_eq!(profile.interpreter.as_deref(), Some("sh"));
    let copy = profile.copy();
    assert_eq!(copy.name, profile.name);
    assert_eq!(copy.interpreter, profile.interpreter);
}

#[test]
fn profiles_are_found_by_name() {
    let mut profiles = Profiles::new();
    assert!(profiles.is_empty());
    profiles.load("example.toml", EXAMPLE_PROFILE);
    profiles.load("notes.txt", "name = \"no\"");
    profiles.load("velocity.toml", VELOCITY_PROXY_PROFILE);
    assert!(!profiles.is_empty());
    assert_eq!(profiles.get_profile("example").unwrap().name.as_deref(), Some("example"));
    assert_eq!(profiles.get_profile("velocity").unwrap().name.as_deref(), Some("velocity"));
    assert_eq!(
        profiles.get_profile("notes").unwrap_err(),
        ProfileError::NotFound(String::from("notes"))
    );
    assert_eq!(
        profiles.get_profile("notes.txt").unwrap_err().message(),
        "Profile 'notes.txt' not found."
    );
    assert_eq!(profiles.get_profile("").unwrap_err().message(), "Profile '' not found.");
    assert_eq!(ProfileError::NameMissing.message(), "No profile name provided.");
}

#[test]
fn a_later_profile_takes_the_name() {
    let mut profiles = Profiles::new();
    profiles.load("a.toml", "name = \"one\"\n");
    profiles.load("b.toml", "name = \"other\"\n");
    profiles.load("a.toml", "name = \"two\"\n");
    assert_eq!(profiles.get_profile("a").unwrap().name.as_deref(), Some("two"));
    assert_eq!(profiles.get_profile("b").unwrap().name.as_deref(), Some("other"));
    let mut given = Profile::new();
    given.arguments = Some(String::from("-x"));
    profiles.insert(String::from("b"), given);
    assert_eq!(profiles.get_profile("b").unwrap().name, None);
    assert_eq!(profiles.get_profile("b").unwrap().arguments.as_deref(), Some("-x"));
}

#[test]
fn profile_names_lose_every_toml() {
    let mut profiles = Profiles::new();
    profiles.load("my.toml.backup.toml", "name = \"x\"\n");
    assert!(profiles.get_profile("my.backup").is_ok());
    profiles.load(".toml", "name = \"y\"\n");
    assert_eq!(profiles.get_profile("").unwrap().name.as_deref(), Some("y"));
}

#[test]
fn default_profiles_are_installed_under_their_names() {
    let files = Profiles::new().install_default_profiles("/home/u");
    assert_eq!(files.len(), 3);
    assert_eq!(files[0].path, "/home/u/.crescent/profiles/example.toml");
    assert_eq!(files[0].content, EXAMPLE_PROFILE);
    assert_eq!(files[1].path, "/home/u/.crescent/profiles/mc-10g.toml");
    assert_eq!(files[1].content, MC_10G_SERVER_PROFILE);
    assert_eq!(files[2].path, "/home/u/.crescent/profiles/velocity.toml");
    assert_eq!(files[2].content, VELOCITY_PROXY_PROFILE);
}
