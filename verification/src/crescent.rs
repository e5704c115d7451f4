//! The state root and the profiles that are kept as JSON files in it.

use crate::directory::{join_path, joined};
use crate::error::CrescentError;
use crate::text::{append_str, chars_of, string_of, texts};
use vstd::prelude::*;

verus! {

/// A profile as its JSON file holds it.
#[derive(Debug)]
pub struct Profile {
    // Not used
    pub __comment: Option<String>,
    // Not used
    pub __version: Option<i8>,
    pub file_path: Option<String>,
    pub name: Option<String>,
    pub interpreter: Option<String>,
    pub interpreter_arguments: Option<Vec<String>>,
    pub application_arguments: Option<Vec<String>>,
    pub stop_command: Option<String>,
}

/// The texts that an optional list of strings holds; none for no list.
pub open spec fn list_texts(list: Option<Vec<String>>) -> Seq<Seq<char>> {
    match list {
        Some(v) => texts(v@),
        None => Seq::empty(),
    }
}

/// The argument vector that a profile launches `file_path` with: the
/// interpreter and its arguments, where it has one, then the executable,
/// then the application's arguments.
pub open spec fn launch_argv(profile: Profile, file_path: Seq<char>) -> Seq<Seq<char>> {
    (match profile.interpreter {
        Some(i) => seq![i@] + list_texts(profile.interpreter_arguments),
        None => Seq::empty(),
    }) + seq![file_path] + list_texts(profile.application_arguments)
}

/// The state root for the home directory `home`.
pub fn crescent_dir(home: &str) -> (r: String)
    ensures
        r@ == joined(home@, ".crescent"@),
{
    string_of(&join_path(&chars_of(home), &chars_of(".crescent")))
}

/// The directory of the applications.
pub fn get_apps_dir(home: &str) -> (r: String)
    ensures
        r@ == joined(joined(home@, ".crescent"@), "apps"@),
{
    let root = join_path(&chars_of(home), &chars_of(".crescent"));
    string_of(&join_path(&root, &chars_of("apps")))
}

/// The directory of the profiles.
pub fn get_profiles_dir(home: &str) -> (r: String)
    ensures
        r@ == joined(joined(home@, ".crescent"@), "profiles"@),
{
    let root = join_path(&chars_of(home), &chars_of(".crescent"));
    string_of(&join_path(&root, &chars_of("profiles")))
}

/// The file that holds the profile named `profile`.
pub fn profile_path(home: &str, profile: &str) -> (r: String)
    ensures
        r@ == joined(joined(joined(home@, ".crescent"@), "profiles"@), profile@ + ".json"@),
{
    let root = join_path(&chars_of(home), &chars_of(".crescent"));
    let dir = join_path(&root, &chars_of("profiles"));
    let mut file = chars_of(profile);
    append_str(&mut file, ".json");
    string_of(&join_path(&dir, &file))
}

/// The profile named `profile`. `loaded` is what its file holds, where
/// there is such a file; without one the profile is not found.
pub fn get_profile(profile: &str, loaded: Option<Profile>) -> (r: Result<Profile, CrescentError>)
    ensures
        r == (match loaded {
            Some(p) => Ok::<Profile, CrescentError>(p),
            None => Err::<Profile, CrescentError>(CrescentError::ProfileNotFound),
        }),
{
    match loaded {
        Some(p) => Ok(p),
        None => Err(CrescentError::ProfileNotFound),
    }
}

impl Profile {
    /// The argument vector that this profile launches `file_path` with.
    pub fn cmd(&self, file_path: &str) -> (r: Vec<String>)
        ensures
            texts(r@) == launch_argv(*self, file_path@),
    {
        let mut r: Vec<String> = Vec::new();
        assert(texts(r@) =~= Seq::<Seq<char>>::empty());
        match &self.interpreter {
            Some(i) => {
                r.push(i.clone());
                assert(texts(r@) =~= seq![i@]);
                match &self.interpreter_arguments {
                    Some(list) => {
                        push_all(&mut r, list);
                    },
                    None => {
                        assert(texts(r@) + Seq::<Seq<char>>::empty() == texts(r@));
                    },
                }
            },
            None => {},
        }
        let ghost front = texts(r@);
        r.push(string_of(&chars_of(file_path)));
        assert(texts(r@) =~= front + seq![file_path@]);
        match &self.application_arguments {
            Some(list) => {
                push_all(&mut r, list);
            },
            None => {
                assert(texts(r@) + Seq::<Seq<char>>::empty() == texts(r@));
            },
        }
        r
    }
}

/// Appends copies of the strings of `list` to `out`.
fn push_all(out: &mut Vec<String>, list: &Vec<String>)
    ensures
        texts(final(out)@) == texts(old(out)@) + texts(list@),
{
    let mut i: usize = 0;
    assert(texts(out@) + texts(list@).subrange(0, 0) =~= texts(out@));
    while i < list.len()
        invariant
            i <= list.len(),
            texts(out@) == texts(old(out)@) + texts(list@).subrange(0, i as int),
        decreases list.len() - i,
    {
        let ghost before = texts(out@);
        out.push(list[i].clone());
        proof {
            assert(texts(out@) =~= before.push(list@[i as int]@));
            assert(texts(old(out)@) + texts(list@).subrange(0, i + 1) =~= (texts(old(out)@)
                + texts(list@).subrange(0, i as int)).push(list@[i as int]@));
        }
        i += 1;
    }
    assert(texts(list@).subrange(0, list.len() as int) =~= texts(list@));
}

} // verus!
