//! Showing a profile, and installing the default ones.

use crate::profile::{ProfileError, ProfileFailure, ProfileFields, Profiles};
use crate::text::{append_str, chars_of, string_of, texts};
use vstd::prelude::*;

verus! {

/// Manage profiles.
#[derive(Debug)]
pub struct ProfileArgs {
    /// Profile name.
    pub profile_name: Option<String>,
    /// Installs default profiles.
    pub default: bool,
}

/// What the command does.
#[derive(Debug)]
pub enum ProfileOutput {
    /// The default profiles are installed.
    InstallDefaults,
    /// These lines are printed.
    Show(Vec<String>),
}

/// The line that shows a field, where the field is set.
pub open spec fn shown_field(name: Seq<char>, value: Option<Seq<char>>) -> Seq<Seq<char>> {
    match value {
        Some(v) => seq![name + ": "@ + v],
        None => Seq::empty(),
    }
}

/// The lines that show a profile: its title, and each field that is set.
pub open spec fn profile_lines(name: Seq<char>, p: ProfileFields) -> Seq<Seq<char>> {
    seq!["Profile: "@ + name] + shown_field("exec_path"@, p.exec_path) + shown_field(
        "name"@,
        p.name,
    ) + shown_field("interpreter"@, p.interpreter) + shown_field("arguments"@, p.arguments)
}

/// Appends the line that shows a field, where the field is set.
fn show_field(out: &mut Vec<String>, name: &str, value: &Option<String>)
    ensures
        texts(final(out)@) == texts(old(out)@) + shown_field(
            name@,
            crate::profile::field_text(*value),
        ),
{
    match value {
        Some(v) => {
            let mut line = chars_of(name);
            append_str(&mut line, ": ");
            append_str(&mut line, v.as_str());
            let ghost before = texts(out@);
            out.push(string_of(&line));
            assert(texts(out@) =~= before + seq![name@ + ": "@ + v@]);
        },
        None => {
            assert(texts(out@) + Seq::<Seq<char>>::empty() =~= texts(out@));
        },
    }
}

impl ProfileArgs {
    /// Decides what the command does: the default profiles are installed,
    /// or the profile of the given name is shown. A name under which no
    /// profile stands is told by the error.
    pub fn run(self, profiles: &Profiles) -> (r: Result<ProfileOutput, ProfileError>)
        ensures
            self.default ==> r is Ok && r->Ok_0 is InstallDefaults,
            !self.default && self.profile_name is None ==> r is Err && r->Err_0@
                == ProfileFailure::NameMissing,
            !self.default && self.profile_name is Some && !profiles@.dom().contains(
                self.profile_name->0@,
            ) ==> r is Err && r->Err_0@ == ProfileFailure::NotFound(self.profile_name->0@),
            !self.default && self.profile_name is Some && profiles@.dom().contains(
                self.profile_name->0@,
            ) ==> r is Ok && r->Ok_0 is Show && texts(r->Ok_0->Show_0@) == profile_lines(
                self.profile_name->0@,
                profiles@[self.profile_name->0@],
            ),
    {
        if self.default {
            return Ok(ProfileOutput::InstallDefaults);
        }
        let profile_name = match self.profile_name {
            Some(name) => name,
            None => {
                return Err(ProfileError::NameMissing);
            },
        };
        let profile = match profiles.get_profile(profile_name.as_str()) {
            Ok(profile) => profile,
            Err(e) => {
                return Err(e);
            },
        };
        let mut out: Vec<String> = Vec::new();
        let mut title = chars_of("Profile: ");
        append_str(&mut title, profile_name.as_str());
        out.push(string_of(&title));
        assert(texts(out@) =~= seq!["Profile: "@ + profile_name@]);
        show_field(&mut out, "exec_path", &profile.exec_path);
        show_field(&mut out, "name", &profile.name);
        show_field(&mut out, "interpreter", &profile.interpreter);
        show_field(&mut out, "arguments", &profile.arguments);
        Ok(ProfileOutput::Show(out))
    }
}

} // verus!
