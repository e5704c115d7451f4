//! Profiles: named presets of what is launched, kept as small files of
//! `key = "value"` lines.

use crate::text::{
    after_first, append_str, before_first, chars_of, lines, occurs_at, remove_text, rows,
    split_lines, str_is, string_of, take_after, take_before, trim, trim_chars, trim_matches,
    trim_matches_chars, without_all, matches_at, same_chars,
};
use vstd::prelude::*;

verus! {

/// Why a profile could not be had.
#[derive(Debug, PartialEq, Eq)]
pub enum ProfileError {
    /// A profile was asked for without its name.
    NameMissing,
    /// No profile has the given name.
    NotFound(String),
}

/// What an error on a profile holds.
pub enum ProfileFailure {
    NameMissing,
    NotFound(Seq<char>),
}

impl View for ProfileError {
    type V = ProfileFailure;

    open spec fn view(&self) -> ProfileFailure {
        match self {
            ProfileError::NameMissing => ProfileFailure::NameMissing,
            ProfileError::NotFound(name) => ProfileFailure::NotFound(name@),
        }
    }
}

/// The line shown for an error on a profile. A profile that is not found
/// is told by its name.
pub open spec fn profile_message(e: ProfileFailure) -> Seq<char> {
    match e {
        ProfileFailure::NameMissing => "No profile name provided."@,
        ProfileFailure::NotFound(name) => "Profile '"@ + name + "' not found."@,
    }
}

impl ProfileError {
    /// The line shown for this error.
    pub fn message(&self) -> (r: String)
        ensures
            r@ == profile_message(self@),
    {
        match self {
            ProfileError::NameMissing => string_of(&chars_of("No profile name provided.")),
            ProfileError::NotFound(name) => {
                let mut out = chars_of("Profile '");
                append_str(&mut out, name.as_str());
                append_str(&mut out, "' not found.");
                string_of(&out)
            },
        }
    }
}

/// A preset of what is launched.
#[derive(Debug)]
pub struct Profile {
    /// The path of the executable.
    pub exec_path: Option<String>,
    /// The application's name.
    pub name: Option<String>,
    /// The interpreter and its arguments.
    pub interpreter: Option<String>,
    /// The arguments of the executable.
    pub arguments: Option<String>,
}

/// What a profile holds.
pub struct ProfileFields {
    pub exec_path: Option<Seq<char>>,
    pub name: Option<Seq<char>>,
    pub interpreter: Option<Seq<char>>,
    pub arguments: Option<Seq<char>>,
}

/// The text that an optional string holds.
pub open spec fn field_text(s: Option<String>) -> Option<Seq<char>> {
    match s {
        Some(s) => Some(s@),
        None => None,
    }
}

impl View for Profile {
    type V = ProfileFields;

    open spec fn view(&self) -> ProfileFields {
        ProfileFields {
            exec_path: field_text(self.exec_path),
            name: field_text(self.name),
            interpreter: field_text(self.interpreter),
            arguments: field_text(self.arguments),
        }
    }
}

/// The profile that sets nothing.
pub open spec fn empty_fields() -> ProfileFields {
    ProfileFields { exec_path: None, name: None, interpreter: None, arguments: None }
}

/// The key and the value that a line of a profile sets. A line that is
/// blank, starts with `#`, holds no `=`, or gives an empty value sets
/// nothing. The value is what stands behind the first `=`, without the
/// white space and then the double quotes around it.
pub open spec fn entry_of(line: Seq<char>) -> Option<(Seq<char>, Seq<char>)> {
    let t = trim(line);
    if t.len() == 0 || t[0] == '#' {
        None
    } else {
        match after_first(t, '=') {
            Some(rest) => {
                let value = trim_matches(trim(rest), '"');
                if value.len() == 0 {
                    None
                } else {
                    Some((trim(before_first(t, '=')), value))
                }
            },
            None => None,
        }
    }
}

/// The profile with the field that `key` names set to `value`; a key that
/// names no field changes nothing.
pub open spec fn with_entry(p: ProfileFields, key: Seq<char>, value: Seq<char>) -> ProfileFields {
    if key == "exec_path"@ {
        ProfileFields { exec_path: Some(value), ..p }
    } else if key == "name"@ {
        ProfileFields { name: Some(value), ..p }
    } else if key == "interpreter"@ {
        ProfileFields { interpreter: Some(value), ..p }
    } else if key == "arguments"@ {
        ProfileFields { arguments: Some(value), ..p }
    } else {
        p
    }
}

/// The profile after the line `line`.
pub open spec fn with_line(p: ProfileFields, line: Seq<char>) -> ProfileFields {
    match entry_of(line) {
        Some((key, value)) => with_entry(p, key, value),
        None => p,
    }
}

/// The profile after the lines `all[from..]`, taken in their order, so
/// that a later line wins over an earlier one.
pub open spec fn with_lines(p: ProfileFields, all: Seq<Seq<char>>, from: int) -> ProfileFields
    decreases all.len() - from,
{
    if from < 0 || from >= all.len() {
        p
    } else {
        with_lines(with_line(p, all[from]), all, from + 1)
    }
}

/// A copy of an optional string.
fn copy_field(s: &Option<String>) -> (r: Option<String>)
    ensures
        field_text(r) == field_text(*s),
{
    match s {
        Some(s) => Some(s.clone()),
        None => None,
    }
}

impl Profile {
    /// The profile that sets nothing.
    pub fn new() -> (r: Profile)
        ensures
            r@ == empty_fields(),
    {
        Profile { exec_path: None, name: None, interpreter: None, arguments: None }
    }

    /// A copy of this profile.
    pub fn copy(&self) -> (r: Profile)
        ensures
            r@ == self@,
    {
        Profile {
            exec_path: copy_field(&self.exec_path),
            name: copy_field(&self.name),
            interpreter: copy_field(&self.interpreter),
            arguments: copy_field(&self.arguments),
        }
    }

    /// Takes one line of a profile's text.
    fn parse_line(&mut self, line: &Vec<char>)
        ensures
            final(self)@ == with_line(old(self)@, line@),
    {
        let t = trim_chars(line);
        if t.len() == 0 || t[0] == '#' {
            return ;
        }
        let rest = match take_after(&t, '=') {
            Some(rest) => rest,
            None => {
                return ;
            },
        };
        let value = trim_matches_chars(&trim_chars(&rest), '"');
        if value.len() == 0 {
            return ;
        }
        let key = trim_chars(&take_before(&t, '='));
        if str_is(&key, "exec_path") {
            self.exec_path = Some(string_of(&value));
        } else if str_is(&key, "name") {
            self.name = Some(string_of(&value));
        } else if str_is(&key, "interpreter") {
            self.interpreter = Some(string_of(&value));
        } else if str_is(&key, "arguments") {
            self.arguments = Some(string_of(&value));
        }
    }

    /// Takes the text of a profile: each line that sets a field is applied
    /// to this profile, in the order of the lines.
    pub fn parse_profile(&mut self, profile_content: &str)
        ensures
            final(self)@ == with_lines(old(self)@, lines(profile_content@), 0),
    {
        let all = split_lines(&chars_of(profile_content));
        let mut i: usize = 0;
        while i < all.len()
            invariant
                i <= all.len(),
                with_lines(self@, rows(all@), i as int) == with_lines(old(self)@, rows(all@), 0),
            decreases all.len() - i,
        {
            assert(rows(all@)[i as int] == all@[i as int]@);
            self.parse_line(&all[i]);
            i += 1;
        }
    }
}

/// A profile under its name.
#[derive(Debug)]
pub struct ProfileEntry {
    /// The profile's name.
    pub name: String,
    /// The profile.
    pub profile: Profile,
}

/// The profiles that are known, each under its name.
#[derive(Debug)]
pub struct Profiles {
    profiles: Vec<ProfileEntry>,
}

/// The index of the first of `entries[from..]` that goes by `name`, or the
/// number of entries.
pub open spec fn index_of_name(entries: Seq<ProfileEntry>, name: Seq<char>, from: int) -> int
    decreases entries.len() - from,
{
    if from < 0 || from >= entries.len() {
        entries.len() as int
    } else if entries[from].name@ == name {
        from
    } else {
        index_of_name(entries, name, from + 1)
    }
}

/// The name that a file of the profiles' directory gives its profile: the
/// file's name without `.toml`. A file whose name does not end in `.toml`
/// holds no profile.
pub open spec fn profile_name_of(file_name: Seq<char>) -> Option<Seq<char>> {
    if occurs_at(file_name, ".toml"@, file_name.len() - 5) {
        Some(without_all(file_name, ".toml"@, 0))
    } else {
        None
    }
}

/// Where the search for a name ends: at an entry of that name before which
/// no entry has it, or behind the last entry.
pub(crate) proof fn lemma_index_of_name(entries: Seq<ProfileEntry>, name: Seq<char>, from: int)
    requires
        0 <= from <= entries.len(),
    ensures
        from <= index_of_name(entries, name, from) <= entries.len(),
        index_of_name(entries, name, from) < entries.len() ==> entries[index_of_name(
            entries,
            name,
            from,
        )].name@ == name,
        forall|k: int|
            from <= k < index_of_name(entries, name, from) ==> (#[trigger] entries[k]).name@
                != name,
    decreases entries.len() - from,
{
    if from < entries.len() && entries[from].name@ != name {
        lemma_index_of_name(entries, name, from + 1);
    }
}

impl Profiles {
    /// The profiles as a map from names to what the profiles hold.
    pub closed spec fn view(&self) -> Map<Seq<char>, ProfileFields> {
        Map::new(
            |name: Seq<char>| index_of_name(self.profiles@, name, 0) < self.profiles@.len(),
            |name: Seq<char>| self.profiles@[index_of_name(self.profiles@, name, 0)].profile@,
        )
    }

    /// No profile.
    pub fn new() -> (r: Profiles)
        ensures
            r@ == Map::<Seq<char>, ProfileFields>::empty(),
    {
        let r = Profiles { profiles: Vec::new() };
        assert(r@ =~= Map::<Seq<char>, ProfileFields>::empty());
        r
    }

    /// Whether no profile is known.
    pub fn is_empty(&self) -> (r: bool)
        ensures
            r == (self@ == Map::<Seq<char>, ProfileFields>::empty()),
    {
        proof {
            if self.profiles@.len() > 0 {
                let name = self.profiles@[0].name@;
                assert(index_of_name(self.profiles@, name, 0) == 0);
                assert(self@.dom().contains(name));
            } else {
                assert(self@ =~= Map::<Seq<char>, ProfileFields>::empty());
            }
        }
        self.profiles.len() == 0
    }

    /// Index of the entry that goes by `name`, or the number of entries.
    fn position(&self, name: &Vec<char>) -> (r: usize)
        ensures
            r == index_of_name(self.profiles@, name@, 0),
            r <= self.profiles.len(),
    {
        let mut i: usize = 0;
        while i < self.profiles.len()
            invariant
                i <= self.profiles.len(),
                index_of_name(self.profiles@, name@, i as int) == index_of_name(
                    self.profiles@,
                    name@,
                    0,
                ),
            decreases self.profiles.len() - i,
        {
            if same_chars(&chars_of(self.profiles[i].name.as_str()), name) {
                return i;
            }
            i += 1;
        }
        i
    }

    /// Puts `profile` under `name`, in the place of a profile that went by
    /// that name before.
    pub fn insert(&mut self, name: String, profile: Profile)
        ensures
            final(self)@ == old(self)@.insert(name@, profile@),
    {
        let key = chars_of(name.as_str());
        let at = self.position(&key);
        let ghost before = self.profiles@;
        let ghost added = profile@;
        proof {
            lemma_index_of_name(before, key@, 0);
        }
        if at < self.profiles.len() {
            self.profiles.remove(at);
        }
        let ghost middle = self.profiles@;
        self.profiles.insert(0, ProfileEntry { name, profile });
        let ghost after = self.profiles@;
        proof {
            assert forall|other: Seq<char>| other != key@ implies (index_of_name(after, other, 0)
                < after.len()) == (index_of_name(before, other, 0) < before.len()) && (
            index_of_name(before, other, 0) < before.len() ==> after[index_of_name(
                after,
                other,
                0,
            )].profile@ == before[index_of_name(before, other, 0)].profile@) by {
                lemma_index_of_name(before, other, 0);
                lemma_index_of_name(after, other, 0);
                let b = index_of_name(before, other, 0);
                let a = index_of_name(after, other, 0);
                if b < before.len() {
                    let place = if at < before.len() && b > at {
                        b
                    } else {
                        b + 1
                    };
                    assert(after[place] == before[b]);
                    if a < place {
                        if a >= 1 {
                            let back = if at < before.len() && a - 1 >= at {
                                a
                            } else {
                                a - 1
                            };
                            assert(before[back] == after[a]);
                        }
                    } else if a > place {
                        assert(after[place].name@ != other);
                    }
                } else {
                    if a < after.len() {
                        if a >= 1 {
                            let back = if at < before.len() && a - 1 >= at {
                                a
                            } else {
                                a - 1
                            };
                            assert(before[back] == after[a]);
                        }
                    }
                }
            }
            assert(index_of_name(after, key@, 0) == 0);
            assert(self@ =~= old(self)@.insert(key@, added));
        }
    }

    /// Takes one file of the profiles' directory: where its name ends in
    /// `.toml`, its content is read as a profile, and the profile is put
    /// under the file's name without `.toml`.
    pub fn load(&mut self, file_name: &str, content: &str)
        ensures
            final(self)@ == (match profile_name_of(file_name@) {
                Some(name) => old(self)@.insert(
                    name,
                    with_lines(empty_fields(), lines(content@), 0),
                ),
                None => old(self)@,
            }),
    {
        let file = chars_of(file_name);
        let ending = chars_of(".toml");
        proof {
            reveal_strlit(".toml");
        }
        if file.len() < 5 || !matches_at(&file, &ending, file.len() - 5) {
            return ;
        }
        let mut profile = Profile::new();
        profile.parse_profile(content);
        let name = remove_text(&file, &ending);
        self.insert(string_of(&name), profile);
    }

    /// Get the profile with the given name. A name under which no profile
    /// stands gives the error that tells that name.
    pub fn get_profile(&self, name: &str) -> (r: Result<Profile, ProfileError>)
        ensures
            match r {
                Ok(profile) => self@.dom().contains(name@) && self@[name@] == profile@,
                Err(e) => !self@.dom().contains(name@) && e@ == ProfileFailure::NotFound(name@)
                    && profile_message(e@) == "Profile '"@ + name@ + "' not found."@,
            },
    {
        let at = self.position(&chars_of(name));
        if at < self.profiles.len() {
            Ok(self.profiles[at].profile.copy())
        } else {
            Err(ProfileError::NotFound(string_of(&chars_of(name))))
        }
    }
}

/// A profile's file: where it is written and what it holds.
#[derive(Debug)]
pub struct ProfileFile {
    /// The file's path.
    pub path: String,
    /// The file's text.
    pub content: String,
}

/// The name of the first default profile.
pub const EXAMPLE_NAME: &'static str = "example";

/// Example profile that executes a long running service with an
/// interpreter.
pub const EXAMPLE_PROFILE: &'static str =
    "# Example profile that executes a long running service with an interpreter\nname = \"example\"\n# Provide the interpreter if necessary and optionally pass arguments to it\ninterpreter = \"python3 -O\"\n# Path to the executable\n#exec_path = \"./tools/long_running_service.py\"\n# Arguments passed to the executable\narguments = \"--log=info -a b\n";

/// The name of the second default profile.
pub const MC_10G_NAME: &'static str = "mc-10g";

/// Aikar's flags for Minecraft servers, 10G ram with GC logging.
pub const MC_10G_SERVER_PROFILE: &'static str =
    "# Aikar's flags for Minecraft servers, 10G ram with GC logging, Java 11+. Works well for Fabric and Paper servers. https://docs.papermc.io/paper/aikars-flags#recommended-jvm-startup-flags\nname = \"minecraft\"\ninterpreter = \"java -Xms10G -Xmx10G -XX:+UseG1GC -XX:+ParallelRefProcEnabled -XX:MaxGCPauseMillis=200 -XX:+UnlockExperimentalVMOptions -XX:+DisableExplicitGC -XX:+AlwaysPreTouch -XX:G1NewSizePercent=30 -XX:G1MaxNewSizePercent=40 -XX:G1HeapRegionSize=8M -XX:G1ReservePercent=20 -XX:G1HeapWastePercent=5 -XX:G1MixedGCCountTarget=4 -XX:InitiatingHeapOccupancyPercent=15 -XX:G1MixedGCLiveThresholdPercent=90 -XX:G1RSetUpdatingPauseTimePercent=5 -XX:SurvivorRatio=32 -XX:+PerfDisableSharedMem -XX:MaxTenuringThreshold=1 -Dusing.aikars.flags=https://mcflags.emc.gs -Daikars.new.flags=true -jar\"\narguments = \"--nogui\"\n";

/// The name of the third default profile.
pub const VELOCITY_NAME: &'static str = "velocity";

/// Recommended flags for Velocity.
pub const VELOCITY_PROXY_PROFILE: &'static str =
    "# Recommended flags for Velocity. https://docs.papermc.io/velocity/tuning\nname = \"velocity\"\ninterpreter = \"java -Xms1024M -Xmx1024M -XX:+UseG1GC -XX:G1HeapRegionSize=4M -XX:+UnlockExperimentalVMOptions -XX:+ParallelRefProcEnabled -XX:+AlwaysPreTouch -XX:MaxInlineLevel=15 -jar\"\n";

/// The path of the file of the profile `name`.
pub open spec fn profile_path_text(home: Seq<char>, name: Seq<char>) -> Seq<char> {
    home + "/.crescent/profiles/"@ + name + ".toml"@
}

/// The file of a default profile.
fn default_file(home: &str, name: &str, content: &str) -> (r: ProfileFile)
    ensures
        r.path@ == profile_path_text(home@, name@),
        r.content@ == content@,
{
    let mut path = chars_of(home);
    append_str(&mut path, "/.crescent/profiles/");
    append_str(&mut path, name);
    append_str(&mut path, ".toml");
    ProfileFile { path: string_of(&path), content: string_of(&chars_of(content)) }
}

impl Profiles {
    /// The files of the default profiles, to be written to
    /// `$HOME/.crescent/profiles/<name>.toml`.
    pub fn install_default_profiles(&self, home: &str) -> (r: Vec<ProfileFile>)
        ensures
            r.len() == 3,
            r[0].path@ == profile_path_text(home@, EXAMPLE_NAME@),
            r[0].content@ == EXAMPLE_PROFILE@,
            r[1].path@ == profile_path_text(home@, MC_10G_NAME@),
            r[1].content@ == MC_10G_SERVER_PROFILE@,
            r[2].path@ == profile_path_text(home@, VELOCITY_NAME@),
            r[2].content@ == VELOCITY_PROXY_PROFILE@,
    {
        let mut r: Vec<ProfileFile> = Vec::new();
        r.push(default_file(home, EXAMPLE_NAME, EXAMPLE_PROFILE));
        r.push(default_file(home, MC_10G_NAME, MC_10G_SERVER_PROFILE));
        r.push(default_file(home, VELOCITY_NAME, VELOCITY_PROXY_PROFILE));
        r
    }
}

} // verus!
