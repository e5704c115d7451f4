//! Starting an executable as a background service.

use crate::directory::{file_stem, file_stem_of};
use crate::error::CrescentError;
use crate::profile::{
    field_text, Profile, ProfileError, ProfileFailure, ProfileFields, Profiles,
};
use crate::text::{chars_of, has_space, has_space_chars, join, join_chars, rows, string_of};
use vstd::prelude::*;

verus! {

/// Starts an executable as a background service.
#[derive(Debug)]
pub struct StartArgs {
    /// Path to the executable.
    pub exec_path: Option<String>,
    /// The application's name; defaults to the executable's name.
    pub name: Option<String>,
    /// The interpreter, which may carry arguments of its own.
    pub interpreter: Option<String>,
    /// Arguments for the executable.
    pub arguments: Option<String>,
    /// Overwrite existing service files.
    pub force: bool,
    /// Name of the profile to load fields from.
    pub profile: Option<String>,
}

/// What the arguments of a start hold.
pub struct StartFields {
    pub exec_path: Option<Seq<char>>,
    pub name: Option<Seq<char>>,
    pub interpreter: Option<Seq<char>>,
    pub arguments: Option<Seq<char>>,
    pub force: bool,
    pub profile: Option<Seq<char>>,
}

impl View for StartArgs {
    type V = StartFields;

    open spec fn view(&self) -> StartFields {
        StartFields {
            exec_path: field_text(self.exec_path),
            name: field_text(self.name),
            interpreter: field_text(self.interpreter),
            arguments: field_text(self.arguments),
            force: self.force,
            profile: field_text(self.profile),
        }
    }
}

impl From<Profile> for StartArgs {
    fn from(profile: Profile) -> (r: StartArgs) {
        StartArgs {
            exec_path: profile.exec_path,
            name: profile.name,
            interpreter: profile.interpreter,
            arguments: profile.arguments,
            // These fields will be ignored.
            force: false,
            profile: None,
        }
    }
}

impl vstd::std_specs::convert::FromSpecImpl<Profile> for StartArgs {
    open spec fn obeys_from_spec() -> bool {
        true
    }

    open spec fn from_spec(profile: Profile) -> StartArgs {
        StartArgs {
            exec_path: profile.exec_path,
            name: profile.name,
            interpreter: profile.interpreter,
            arguments: profile.arguments,
            force: false,
            profile: None,
        }
    }
}

/// What is known of the machine when an application is started.
#[derive(Debug, Clone, Copy, PartialEq, Eq, Structural)]
pub struct StartProbe {
    /// Whether the application's directory is there.
    pub app_dir_exists: bool,
    /// Whether an application of that name is running.
    pub running: bool,
    /// Whether the service's unit file is there.
    pub script_exists: bool,
}

/// What a start does.
#[derive(Debug)]
pub struct StartPlan {
    /// The application's name.
    pub name: String,
    /// The command with which the service's files are written anew, where
    /// they are.
    pub create: Option<String>,
    /// Whether the application's directory is removed and made anew.
    pub recreate_dir: bool,
}

/// What a start plan holds.
pub struct StartSteps {
    pub name: Seq<char>,
    pub create: Option<Seq<char>>,
    pub recreate_dir: bool,
}

impl View for StartPlan {
    type V = StartSteps;

    open spec fn view(&self) -> StartSteps {
        StartSteps {
            name: self.name@,
            create: field_text(self.create),
            recreate_dir: self.recreate_dir,
        }
    }
}

/// The field that is set, or else the loaded one.
pub open spec fn either(set: Option<Seq<char>>, loaded: Option<Seq<char>>) -> Option<Seq<char>> {
    match set {
        Some(field) => Some(field),
        None => loaded,
    }
}

/// The arguments with the loaded ones filling every field that is not
/// set. `force` and `profile` are dropped.
pub open spec fn overwritten(set: StartFields, loaded: StartFields) -> StartFields {
    StartFields {
        exec_path: either(set.exec_path, loaded.exec_path),
        name: either(set.name, loaded.name),
        interpreter: either(set.interpreter, loaded.interpreter),
        arguments: either(set.arguments, loaded.arguments),
        force: false,
        profile: None,
    }
}

/// A profile's fields as arguments of a start.
pub open spec fn fields_of_profile(p: ProfileFields) -> StartFields {
    StartFields {
        exec_path: p.exec_path,
        name: p.name,
        interpreter: p.interpreter,
        arguments: p.arguments,
        force: false,
        profile: None,
    }
}

/// The arguments once the profile that they name is loaded: the profile
/// fills the fields that are not set, and `force` is kept. A name under
/// which no profile stands is told by the error.
pub open spec fn resolved(set: StartFields, known: Map<Seq<char>, ProfileFields>) -> Result<
    StartFields,
    ProfileFailure,
> {
    match set.profile {
        Some(name) => if known.dom().contains(name) {
            Ok(
                StartFields {
                    force: set.force,
                    ..overwritten(set, fields_of_profile(known[name]))
                },
            )
        } else {
            Err(ProfileFailure::NotFound(name))
        },
        None => Ok(set),
    }
}

/// The parts of the command line: the interpreter, the executable, the
/// arguments.
pub open spec fn exec_cmd_parts(set: StartFields, exec_path: Seq<char>) -> Seq<Seq<char>> {
    let front = match set.interpreter {
        Some(i) => seq![i, exec_path],
        None => seq![exec_path],
    };
    match set.arguments {
        Some(a) => front.push(a),
        None => front,
    }
}

/// The command line that the service runs.
pub open spec fn exec_cmd(set: StartFields, exec_path: Seq<char>) -> Seq<char> {
    join(exec_cmd_parts(set, exec_path), " "@)
}

/// The application's name: the given one, or else the executable's file
/// name without its extension.
pub open spec fn name_for(name: Option<Seq<char>>, exec_path: Seq<char>) -> Option<Seq<char>> {
    match name {
        Some(n) => Some(n),
        None => file_stem_of(exec_path),
    }
}

/// The application's name, or why the start is refused for it.
pub open spec fn checked_name(name: Option<Seq<char>>, exec_path: Seq<char>) -> Result<
    Seq<char>,
    CrescentError,
> {
    match name_for(name, exec_path) {
        Some(n) => if has_space(n) {
            Err(CrescentError::NameContainsWhitespace)
        } else {
            Ok(n)
        },
        None => Err(CrescentError::ExecutablePathNotFound),
    }
}

/// What a start does, or the error it is refused with. `canonical` is the
/// absolute path of the executable, where the given path leads to one.
pub open spec fn start_outcome(set: StartFields, canonical: Option<Seq<char>>, probe: StartProbe)
    -> Result<StartSteps, CrescentError> {
    if set.exec_path is None {
        Err(CrescentError::ExecutablePathNotProvided)
    } else if canonical is None {
        Err(CrescentError::ExecutablePathNotFound)
    } else {
        match checked_name(set.name, canonical->0) {
            Err(e) => Err(e),
            Ok(name) => if probe.app_dir_exists && probe.running {
                Err(CrescentError::ApplicationAlreadyRunning)
            } else {
                Ok(
                    StartSteps {
                        name,
                        create: if !probe.script_exists || set.force {
                            Some(exec_cmd(set, canonical->0))
                        } else {
                            None
                        },
                        recreate_dir: probe.app_dir_exists,
                    },
                )
            },
        }
    }
}

/// The field that is set, or else the loaded one.
fn overwrite_value(set: Option<String>, loaded: Option<String>) -> (r: Option<String>)
    ensures
        field_text(r) == either(field_text(set), field_text(loaded)),
{
    match set {
        // If the field is set, it takes precedence over the loaded field.
        Some(field) => Some(field),
        None => loaded,
    }
}

impl StartArgs {
    /// Loads the profile that the arguments name, if they name one: the
    /// profile fills the fields that are not set.
    pub fn resolve(self, profiles: &Profiles) -> (r: Result<StartArgs, ProfileError>)
        ensures
            match r {
                Ok(args) => resolved(self@, profiles@) == Ok::<StartFields, ProfileFailure>(args@),
                Err(e) => resolved(self@, profiles@) == Err::<StartFields, ProfileFailure>(e@),
            },
    {
        let loaded = match &self.profile {
            Some(name) => match profiles.get_profile(name.as_str()) {
                Ok(profile) => profile,
                Err(e) => {
                    return Err(e);
                },
            },
            None => {
                return Ok(self);
            },
        };
        let force = self.force;
        let from_profile = StartArgs {
            exec_path: loaded.exec_path,
            name: loaded.name,
            interpreter: loaded.interpreter,
            arguments: loaded.arguments,
            force: false,
            profile: None,
        };
        let mut merged = self.overwrite_args(from_profile);
        merged.force = force;
        Ok(merged)
    }

    /// The application's name for the executable at `exec_path`.
    pub fn application_name(&self, exec_path: &str) -> (r: Result<String, CrescentError>)
        ensures
            match r {
                Ok(name) => checked_name(self@.name, exec_path@) == Ok::<
                    Seq<char>,
                    CrescentError,
                >(name@),
                Err(e) => checked_name(self@.name, exec_path@) == Err::<Seq<char>, CrescentError>(e),
            },
    {
        // If name is not provided, use the file name.
        let name = match &self.name {
            Some(name) => name.clone(),
            None => match file_stem(exec_path) {
                Some(stem) => stem,
                None => {
                    return Err(CrescentError::ExecutablePathNotFound);
                },
            },
        };
        if has_space_chars(&chars_of(name.as_str())) {
            return Err(CrescentError::NameContainsWhitespace);
        }
        Ok(name)
    }

    /// Decides what a start does. `canonical` is the absolute path of the
    /// executable, where the given path leads to one.
    pub fn run(self, canonical: Option<&str>, probe: StartProbe) -> (r: Result<
        StartPlan,
        CrescentError,
    >)
        ensures
            match r {
                Ok(plan) => start_outcome(
                    self@,
                    match canonical {
                        Some(p) => Some(p@),
                        None => None,
                    },
                    probe,
                ) == Ok::<StartSteps, CrescentError>(plan@),
                Err(e) => start_outcome(
                    self@,
                    match canonical {
                        Some(p) => Some(p@),
                        None => None,
                    },
                    probe,
                ) == Err::<StartSteps, CrescentError>(e),
            },
    {
        if self.exec_path.is_none() {
            return Err(CrescentError::ExecutablePathNotProvided);
        }
        let exec_path = match canonical {
            Some(path) => path,
            None => {
                return Err(CrescentError::ExecutablePathNotFound);
            },
        };
        let name = match self.application_name(exec_path) {
            Ok(name) => name,
            Err(e) => {
                return Err(e);
            },
        };
        if probe.app_dir_exists && probe.running {
            return Err(CrescentError::ApplicationAlreadyRunning);
        }
        let create = if !probe.script_exists || self.force {
            Some(self.format_exec_cmd(exec_path))
        } else {
            None
        };
        Ok(StartPlan { name, create, recreate_dir: probe.app_dir_exists })
    }

    /// The command line that the service runs.
    pub fn format_exec_cmd(self, exec_path: &str) -> (r: String)
        ensures
            r@ == exec_cmd(self@, exec_path@),
    {
        let mut parts: Vec<Vec<char>> = Vec::new();
        match &self.interpreter {
            Some(interpreter) => {
                parts.push(chars_of(interpreter.as_str()));
            },
            None => {},
        }
        parts.push(chars_of(exec_path));
        match &self.arguments {
            Some(arguments) => {
                parts.push(chars_of(arguments.as_str()));
            },
            None => {},
        }
        assert(rows(parts@) =~= exec_cmd_parts(self@, exec_path@));
        string_of(&join_chars(&parts, &chars_of(" ")))
    }

    /// Fills every field that is not set from `loaded_args`.
    pub fn overwrite_args(self, loaded_args: StartArgs) -> (r: StartArgs)
        ensures
            r@ == overwritten(self@, loaded_args@),
    {
        let name = overwrite_value(self.name, loaded_args.name);
        let exec_path = overwrite_value(self.exec_path, loaded_args.exec_path);
        let interpreter = overwrite_value(self.interpreter, loaded_args.interpreter);
        let arguments = overwrite_value(self.arguments, loaded_args.arguments);
        StartArgs {
            exec_path,
            name,
            interpreter,
            arguments,
            // These fields will be ignored.
            force: false,
            profile: None,
        }
    }
}

/// A start under a name that holds white space is refused for the name,
/// whatever else is known, once its executable is given and found.
pub proof fn lemma_space_in_name_refused(
    set: StartFields,
    canonical: Seq<char>,
    probe: StartProbe,
)
    requires
        set.exec_path is Some,
        set.name is Some,
        has_space(set.name->0),
    ensures
        start_outcome(set, Some(canonical), probe) == Err::<StartSteps, CrescentError>(
            CrescentError::NameContainsWhitespace,
        ),
{
}

/// A start over a directory that a supervisor left behind goes through:
/// where no application of that name is running, the start is not
/// refused for the directory, and the directory is made anew.
pub proof fn lemma_orphan_directory_restarted(
    set: StartFields,
    canonical: Seq<char>,
    probe: StartProbe,
)
    requires
        set.exec_path is Some,
        checked_name(set.name, canonical) is Ok,
        probe.app_dir_exists,
        !probe.running,
    ensures
        start_outcome(set, Some(canonical), probe) is Ok,
        start_outcome(set, Some(canonical), probe)->Ok_0.recreate_dir,
{
}

} // verus!
