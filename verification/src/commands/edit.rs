//! Editing the scripts of a service, or a profile.

use crate::application::Application;
use crate::directory::{join_path, joined};
use crate::error::CrescentError;
use crate::service::{InitSystem, Service};
use crate::services::systemd::{scripts_dir, units_for};
use crate::text::{append_str, chars_of, string_of, texts};
use vstd::prelude::*;

verus! {

/// Edit service scripts or a profile. Creates a new profile if it does not
/// exist.
#[derive(Debug)]
pub struct EditArgs {
    /// Edit service or profile.
    pub kind: EditKind,
    /// Service/Profile name.
    pub name: String,
}

/// What is edited.
#[derive(Debug, Copy, Clone, PartialEq, Eq, Structural)]
pub enum EditKind {
    /// The scripts of a service.
    Service,
    /// A profile.
    Profile,
}

/// The file of the profile `name`.
pub open spec fn profile_file(home: Seq<char>, name: Seq<char>) -> Seq<char> {
    joined(home + "/.crescent/profiles/"@, name + ".toml"@)
}

/// The files that the command opens in the editor, one after the other. A
/// profile need not be there; a service must be.
pub open spec fn files_to_edit(kind: EditKind, name: Seq<char>, exists: bool, home: Seq<char>)
    -> Result<Seq<Seq<char>>, CrescentError> {
    match kind {
        EditKind::Profile => Ok(seq![profile_file(home, name)]),
        EditKind::Service => if exists {
            Ok(
                seq![
                    scripts_dir(home) + units_for(name).service_name,
                    scripts_dir(home) + units_for(name).socket_name,
                ],
            )
        } else {
            Err(CrescentError::ApplicationNotFound)
        },
    }
}

impl EditArgs {
    /// Decides what the command does.
    pub fn run(self, exists: bool, home: &str) -> (r: Result<Vec<String>, CrescentError>)
        ensures
            match r {
                Ok(files) => files_to_edit(self.kind, self.name@, exists, home@) == Ok::<
                    Seq<Seq<char>>,
                    CrescentError,
                >(texts(files@)),
                Err(e) => files_to_edit(self.kind, self.name@, exists, home@) == Err::<
                    Seq<Seq<char>>,
                    CrescentError,
                >(e),
            },
    {
        match self.kind {
            EditKind::Profile => {
                // If the profile does not exist, let the user create one.
                let mut dir = chars_of(home);
                append_str(&mut dir, "/.crescent/profiles/");
                let mut file = chars_of(self.name.as_str());
                append_str(&mut file, ".toml");
                let mut files: Vec<String> = Vec::new();
                files.push(string_of(&join_path(&dir, &file)));
                assert(texts(files@) =~= seq![profile_file(home@, self.name@)]);
                Ok(files)
            },
            EditKind::Service => {
                let application = Application::from(self.name.as_str());
                match application.check_exists(exists) {
                    Err(e) => {
                        return Err(e);
                    },
                    Ok(()) => {},
                }
                let init_system = Service::get(Some(self.name.as_str()));
                Ok(init_system.get_scripts_paths(home))
            },
        }
    }
}

} // verus!
