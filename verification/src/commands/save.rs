//! Saving the applications that are running.

use crate::directory::{join_path, joined};
use crate::process::Application;
use crate::text::{append_chars, append_str, chars_of, decimal, decimal_chars, string_of, texts};
use vstd::prelude::*;

verus! {

/// What the save file holds.
#[derive(Debug)]
pub struct SaveFile {
    /// The launch descriptors of the applications that were running.
    pub apps: Vec<Application>,
}

/// Save all currently running application.
#[derive(Debug, Clone, Copy, PartialEq, Eq, Structural)]
pub struct SaveArgs;

/// What a save does.
#[derive(Debug)]
pub struct SavePlan {
    /// The path of the file that is written; none where no application is
    /// running.
    pub path: Option<String>,
    /// What goes into the file.
    pub file: Option<SaveFile>,
    /// The lines that are told.
    pub lines: Vec<String>,
}

/// The names of the applications `apps[from..]`.
pub open spec fn names_from(apps: Seq<Application>, from: int) -> Seq<Seq<char>>
    decreases apps.len() - from,
{
    if from < 0 || from >= apps.len() {
        Seq::empty()
    } else {
        seq![apps[from].name@] + names_from(apps, from + 1)
    }
}

/// The lines that a save tells: how many applications were saved, and the
/// name of each; or that none is running.
pub open spec fn save_lines(apps: Seq<Application>) -> Seq<Seq<char>> {
    if apps.len() == 0 {
        seq!["No application running."@]
    } else {
        seq!["Saved "@ + decimal(apps.len()) + " apps:"@] + names_from(apps, 0)
    }
}

/// The path of the save file.
pub open spec fn save_path(home: Seq<char>) -> Seq<char> {
    joined(joined(home, ".crescent"@), "apps.json"@)
}

impl SaveArgs {
    /// Decides what the command does with the launch descriptors of the
    /// applications that are running.
    pub fn run(self, apps: Vec<Application>, home: &str) -> (r: SavePlan)
        ensures
            texts(r.lines@) == save_lines(apps@),
            apps.len() == 0 ==> r.path is None && r.file is None,
            apps.len() > 0 ==> r.path is Some && r.path->0@ == save_path(home@),
            apps.len() > 0 ==> r.file is Some && r.file->0.apps == apps,
    {
        let mut lines: Vec<String> = Vec::new();
        if apps.len() == 0 {
            lines.push(string_of(&chars_of("No application running.")));
            assert(texts(lines@) =~= save_lines(apps@));
            return SavePlan { path: None, file: None, lines };
        }
        let mut title = chars_of("Saved ");
        append_chars(&mut title, &decimal_chars(apps.len() as u64));
        append_str(&mut title, " apps:");
        lines.push(string_of(&title));
        assert(texts(lines@) =~= seq!["Saved "@ + decimal(apps.len() as nat) + " apps:"@]);
        let mut i: usize = 0;
        while i < apps.len()
            invariant
                i <= apps.len(),
                apps.len() > 0,
                texts(lines@) + names_from(apps@, i as int) == save_lines(apps@),
            decreases apps.len() - i,
        {
            let ghost before = texts(lines@);
            let ghost rest = names_from(apps@, i + 1);
            lines.push(apps[i].name.clone());
            proof {
                assert(texts(lines@) =~= before.push(apps@[i as int].name@));
                assert(before.push(apps@[i as int].name@) + rest == before + (
                seq![apps@[i as int].name@] + rest));
            }
            i += 1;
        }
        assert(texts(lines@) + Seq::<Seq<char>>::empty() == texts(lines@));
        let root = join_path(&chars_of(home), &chars_of(".crescent"));
        let path = string_of(&join_path(&root, &chars_of("apps.json")));
        SavePlan { path: Some(path), file: Some(SaveFile { apps }), lines }
    }
}

} // verus!
