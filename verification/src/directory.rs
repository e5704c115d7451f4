//! Where the supervisor keeps its files: the state root under the user's
//! home directory, one directory per application, and the well-known files
//! in it.

use crate::text::{
    append_chars, append_str, chars_of, copy_range, drop_char_back, string_of,
};
use vstd::prelude::*;

verus! {

/// `part` added to the path `base` as one more component: a `part` that
/// starts at the root takes the place of `base`; otherwise it follows
/// `base`, after a separator where `base` does not end in one.
pub open spec fn joined(base: Seq<char>, part: Seq<char>) -> Seq<char> {
    if part.len() > 0 && part[0] == '/' {
        part
    } else if base.len() == 0 || base.last() == '/' {
        base + part
    } else {
        base + seq!['/'] + part
    }
}

/// The state root for the home directory `home`.
pub open spec fn crescent_dir_path(home: Seq<char>) -> Seq<char> {
    joined(home, ".crescent"@)
}

/// The directory that holds the applications' directories.
pub open spec fn apps_dir_path(home: Seq<char>) -> Seq<char> {
    joined(crescent_dir_path(home), "apps"@)
}

/// The directory of the application `name`.
pub open spec fn app_dir_text(home: Seq<char>, name: Seq<char>) -> Seq<char> {
    application_dir_path(home, name)
}

/// The directory of the application `name` under the applications'
/// directory.
pub open spec fn application_dir_path(home: Seq<char>, name: Seq<char>) -> Seq<char> {
    joined(apps_dir_path(home), name)
}

/// The file in the directory of the application `name` whose name is that
/// of the application followed by `ending`.
pub open spec fn application_file_path(home: Seq<char>, name: Seq<char>, ending: Seq<char>) -> Seq<
    char,
> {
    joined(application_dir_path(home, name), name + ending)
}

/// `part` added to the path `base` as one more component.
pub fn join_path(base: &Vec<char>, part: &Vec<char>) -> (r: Vec<char>)
    ensures
        r@ == joined(base@, part@),
{
    let mut r: Vec<char> = Vec::new();
    if part.len() > 0 && part[0] == '/' {
        append_chars(&mut r, part);
        assert(Seq::<char>::empty() + part@ == part@);
    } else {
        append_chars(&mut r, base);
        assert(Seq::<char>::empty() + base@ == base@);
        if base.len() > 0 && base[base.len() - 1] != '/' {
            r.push('/');
        }
        append_chars(&mut r, part);
    }
    r
}

/// The state root for the home directory `home`.
pub fn crescent_dir(home: &str) -> (r: String)
    ensures
        r@ == crescent_dir_path(home@),
{
    let r = join_path(&chars_of(home), &chars_of(".crescent"));
    string_of(&r)
}

/// The directory of the application `name`.
pub fn application_dir_by_name(home: &str, name: &str) -> (r: String)
    ensures
        r@ == application_dir_path(home@, name@),
{
    let root = join_path(&chars_of(home), &chars_of(".crescent"));
    let apps = join_path(&root, &chars_of("apps"));
    let dir = join_path(&apps, &chars_of(name));
    string_of(&dir)
}

/// The file of the application `name` with the given ending.
fn application_file(home: &str, name: &str, ending: &str) -> (r: String)
    ensures
        r@ == application_file_path(home@, name@, ending@),
{
    let root = join_path(&chars_of(home), &chars_of(".crescent"));
    let apps = join_path(&root, &chars_of("apps"));
    let dir = join_path(&apps, &chars_of(name));
    let mut file = chars_of(name);
    append_str(&mut file, ending);
    let path = join_path(&dir, &file);
    string_of(&path)
}

/// The control socket of the application `name`.
pub fn socket_path(home: &str, name: &str) -> (r: String)
    ensures
        r@ == application_file_path(home@, name@, ".sock"@),
{
    application_file(home, name, ".sock")
}

/// The PID file of the application `name`.
pub fn pid_path(home: &str, name: &str) -> (r: String)
    ensures
        r@ == application_file_path(home@, name@, ".pid"@),
{
    application_file(home, name, ".pid")
}

/// The log file of the application `name`.
pub fn log_path(home: &str, name: &str) -> (r: String)
    ensures
        r@ == application_file_path(home@, name@, ".log"@),
{
    application_file(home, name, ".log")
}

/// Tells whether an application is supervised already, from the process
/// numbers in its PID file and from whether a process with the first of
/// them, the supervisor's, is alive.
pub fn app_already_exist(pids: &Vec<u32>, supervisor_alive: bool) -> (r: bool)
    ensures
        r == (pids.len() > 0 && supervisor_alive),
{
    pids.len() > 0 && supervisor_alive
}

/// The last index before `hi` that holds `c`, or -1.
pub open spec fn last_index_of(s: Seq<char>, c: char, hi: int) -> int
    decreases hi,
{
    if hi <= 0 || hi > s.len() {
        -1
    } else if s[hi - 1] == c {
        hi - 1
    } else {
        last_index_of(s, c, hi - 1)
    }
}

/// The length of `path` without the separators at its end.
pub open spec fn bare_len(path: Seq<char>) -> int {
    drop_char_back(path, '/', 0, path.len() as int)
}

/// The last component of `path`: what stands behind its last separator,
/// separators at the end of `path` left aside. A path without such a
/// component, or with `.` or `..` there, has none.
pub open spec fn file_name_of(path: Seq<char>) -> Option<Seq<char>> {
    let end = bare_len(path);
    let name = path.subrange(last_index_of(path, '/', end) + 1, end);
    if name.len() == 0 || name == seq!['.'] || name == seq!['.', '.'] {
        None
    } else {
        Some(name)
    }
}

/// A file name without its extension: what stands before its last dot. A
/// name without a dot, or with its only dot in front, is kept whole.
pub open spec fn stem_of(name: Seq<char>) -> Seq<char> {
    let dot = last_index_of(name, '.', name.len() as int);
    if dot <= 0 {
        name
    } else {
        name.subrange(0, dot)
    }
}

/// The last component of `path` without its extension.
pub open spec fn file_stem_of(path: Seq<char>) -> Option<Seq<char>> {
    match file_name_of(path) {
        Some(name) => Some(stem_of(name)),
        None => None,
    }
}

/// The directory that holds the last component of `path`: the root for a
/// component right under it, the empty path for a lone component. The root
/// and the empty path have none.
pub open spec fn parent_of(path: Seq<char>) -> Option<Seq<char>> {
    let end = bare_len(path);
    let slash = last_index_of(path, '/', end);
    if end == 0 {
        None
    } else if slash < 0 {
        Some(Seq::empty())
    } else {
        let cut = drop_char_back(path, '/', 0, slash);
        if cut == 0 {
            Some(seq!['/'])
        } else {
            Some(path.subrange(0, cut))
        }
    }
}

/// The length of `v[..hi]` without the separators at its end.
fn strip_separators(v: &Vec<char>, hi: usize) -> (r: usize)
    requires
        hi <= v.len(),
    ensures
        r == drop_char_back(v@, '/', 0, hi as int),
        r <= hi,
{
    let mut k: usize = hi;
    while k > 0 && v[k - 1] == '/'
        invariant
            k <= hi <= v.len(),
            drop_char_back(v@, '/', 0, k as int) == drop_char_back(v@, '/', 0, hi as int),
        decreases k,
    {
        k -= 1;
    }
    k
}

/// One more than the last index before `hi` that holds `c`; 0 where none
/// does.
fn after_last(v: &Vec<char>, c: char, hi: usize) -> (r: usize)
    requires
        hi <= v.len(),
    ensures
        r == last_index_of(v@, c, hi as int) + 1,
        r <= hi,
{
    let mut k: usize = hi;
    while k > 0 && v[k - 1] != c
        invariant
            k <= hi <= v.len(),
            last_index_of(v@, c, k as int) == last_index_of(v@, c, hi as int),
        decreases k,
    {
        k -= 1;
    }
    k
}

/// The last component of `path`.
pub fn file_name(path: &str) -> (r: Option<String>)
    ensures
        match r {
            Some(name) => file_name_of(path@) == Some(name@),
            None => file_name_of(path@) is None,
        },
{
    let v = chars_of(path);
    let end = strip_separators(&v, v.len());
    let start = after_last(&v, '/', end);
    let name = copy_range(&v, start, end);
    let is_dot = name.len() == 1 && name[0] == '.';
    let is_dots = name.len() == 2 && name[0] == '.' && name[1] == '.';
    proof {
        assert(is_dot == (name@ == seq!['.'])) by {
            if is_dot {
                assert(name@ =~= seq!['.']);
            }
        }
        assert(is_dots == (name@ == seq!['.', '.'])) by {
            if is_dots {
                assert(name@ =~= seq!['.', '.']);
            }
        }
    }
    if name.len() == 0 || is_dot || is_dots {
        None
    } else {
        Some(string_of(&name))
    }
}

/// The last component of `path` without its extension.
pub fn file_stem(path: &str) -> (r: Option<String>)
    ensures
        match r {
            Some(stem) => file_stem_of(path@) == Some(stem@),
            None => file_stem_of(path@) is None,
        },
{
    match file_name(path) {
        Some(name) => {
            let v = chars_of(name.as_str());
            let after = after_last(&v, '.', v.len());
            if after <= 1 {
                Some(name)
            } else {
                let stem = copy_range(&v, 0, after - 1);
                Some(string_of(&stem))
            }
        },
        None => None,
    }
}

/// The directory that holds the last component of `path`.
pub fn parent(path: &str) -> (r: Option<String>)
    ensures
        match r {
            Some(dir) => parent_of(path@) == Some(dir@),
            None => parent_of(path@) is None,
        },
{
    let v = chars_of(path);
    let end = strip_separators(&v, v.len());
    if end == 0 {
        return None;
    }
    let after = after_last(&v, '/', end);
    if after == 0 {
        let empty: Vec<char> = Vec::new();
        return Some(string_of(&empty));
    }
    let cut = strip_separators(&v, after - 1);
    if cut == 0 {
        let mut root: Vec<char> = Vec::new();
        root.push('/');
        assert(root@ =~= seq!['/']);
        Some(string_of(&root))
    } else {
        let dir = copy_range(&v, 0, cut);
        Some(string_of(&dir))
    }
}

} // verus!
