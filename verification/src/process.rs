//! The launch descriptor of an application, and the PID file.

use crate::directory::{app_dir_text, application_dir_by_name, file_stem, file_stem_of, parent, parent_of};
use crate::error::CrescentError;
use crate::text::{
    chars_of, copy_range, decimal, decimal_chars, find_char, index_of, is_digit,
    lemma_decimal_digits, number_in, parse_u32, rows, str_is, string_of, texts,
};
use vstd::prelude::*;

verus! {

/// How a child is launched. It is made once and not changed while the
/// child runs.
#[derive(Debug)]
pub struct Application {
    /// The application's name.
    pub name: String,
    /// The program that is run: the interpreter, or the executable itself
    /// where there is none.
    pub interpreter: String,
    /// The arguments handed to that program.
    pub args: Vec<String>,
    /// The absolute path of the executable.
    pub file_path: String,
    /// The application's directory under the state root.
    pub app_dir: String,
    /// The directory that the supervisor works in.
    pub work_dir: String,
    /// The command that asks the child to exit, if it knows one.
    pub stop_command: Option<String>,
}

/// What a launch descriptor holds.
pub struct Descriptor {
    pub name: Seq<char>,
    pub interpreter: Seq<char>,
    pub args: Seq<Seq<char>>,
    pub file_path: Seq<char>,
    pub app_dir: Seq<char>,
    pub work_dir: Seq<char>,
    pub stop_command: Option<Seq<char>>,
}

impl View for Application {
    type V = Descriptor;

    open spec fn view(&self) -> Descriptor {
        Descriptor {
            name: self.name@,
            interpreter: self.interpreter@,
            args: texts(self.args@),
            file_path: self.file_path@,
            app_dir: self.app_dir@,
            work_dir: self.work_dir@,
            stop_command: match self.stop_command {
                Some(s) => Some(s@),
                None => None,
            },
        }
    }
}

/// The text that an optional string holds.
pub open spec fn opt_text(s: Option<String>) -> Option<Seq<char>> {
    match s {
        Some(s) => Some(s@),
        None => None,
    }
}

/// The program to run for an executable and the interpreter asked for: the
/// interpreter, or the executable itself where none, or an empty one, was
/// asked for.
pub open spec fn program_for(file_path: Seq<char>, interpreter: Option<Seq<char>>) -> Seq<char> {
    match interpreter {
        Some(i) => if i.len() == 0 {
            file_path
        } else {
            i
        },
        None => file_path,
    }
}

/// The arguments for that program: for `java`, `-jar` and the executable;
/// for another interpreter, the executable; then the application's own
/// arguments, where there are any, as one argument.
pub open spec fn arguments_for(
    file_path: Seq<char>,
    interpreter: Option<Seq<char>>,
    arguments: Option<Seq<char>>,
) -> Seq<Seq<char>> {
    let front = if program_for(file_path, interpreter) == file_path && (interpreter is None
        || interpreter->0.len() == 0) {
        Seq::<Seq<char>>::empty()
    } else if interpreter->0 == "java"@ {
        seq!["-jar"@, file_path]
    } else {
        seq![file_path]
    };
    match arguments {
        Some(a) => front.push(a),
        None => front,
    }
}

/// The descriptor for the given name, executable and working directory.
pub open spec fn descriptor_for(
    file_path: Seq<char>,
    name: Seq<char>,
    work_dir: Seq<char>,
    interpreter: Option<Seq<char>>,
    arguments: Option<Seq<char>>,
    home: Seq<char>,
) -> Descriptor {
    Descriptor {
        name,
        interpreter: program_for(file_path, interpreter),
        args: arguments_for(file_path, interpreter, arguments),
        file_path,
        app_dir: app_dir_text(home, name),
        work_dir,
        stop_command: None,
    }
}

/// The descriptor that stands where none is meant: all of its fields are
/// empty.
pub open spec fn placeholder_descriptor() -> Descriptor {
    Descriptor {
        name: Seq::empty(),
        interpreter: Seq::empty(),
        args: Seq::empty(),
        file_path: Seq::empty(),
        app_dir: Seq::empty(),
        work_dir: Seq::empty(),
        stop_command: None,
    }
}

/// The argument vector of a descriptor: the program, then its arguments.
pub open spec fn argv(d: Descriptor) -> Seq<Seq<char>> {
    seq![d.interpreter] + d.args
}

impl Application {
    /// The descriptor for the executable at the absolute path `file_path`.
    /// The name is `app_name` or else the executable's file name without
    /// its extension; the working directory is the one that holds the
    /// executable. A path without a file name or without a directory
    /// around it gives `ExecutablePathNotFound`.
    pub fn new(
        file_path: String,
        app_name: Option<String>,
        interpreter: Option<String>,
        arguments: Option<String>,
        home: &str,
    ) -> (r: Result<Application, CrescentError>)
        ensures
            match r {
                Ok(app) => {
                    &&& parent_of(file_path@) is Some
                    &&& app_name is Some || file_stem_of(file_path@) is Some
                    &&& app@ == descriptor_for(
                        file_path@,
                        if app_name is Some {
                            app_name->0@
                        } else {
                            file_stem_of(file_path@)->0
                        },
                        parent_of(file_path@)->0,
                        opt_text(interpreter),
                        opt_text(arguments),
                        home@,
                    )
                },
                Err(e) => {
                    &&& e == CrescentError::ExecutablePathNotFound
                    &&& parent_of(file_path@) is None || (app_name is None && file_stem_of(
                        file_path@,
                    ) is None)
                },
            },
    {
        let work_dir = match parent(file_path.as_str()) {
            Some(dir) => dir,
            None => {
                return Err(CrescentError::ExecutablePathNotFound);
            },
        };
        let name = match app_name {
            Some(name) => name,
            None => match file_stem(file_path.as_str()) {
                Some(stem) => stem,
                None => {
                    return Err(CrescentError::ExecutablePathNotFound);
                },
            },
        };
        Ok(Application::assemble(file_path, name, work_dir, interpreter, arguments, home))
    }

    /// The descriptor for an executable whose name and working directory
    /// are known.
    pub fn assemble(
        file_path: String,
        name: String,
        work_dir: String,
        interpreter: Option<String>,
        arguments: Option<String>,
        home: &str,
    ) -> (app: Application)
        ensures
            app@ == descriptor_for(
                file_path@,
                name@,
                work_dir@,
                opt_text(interpreter),
                opt_text(arguments),
                home@,
            ),
    {
        let app_dir = application_dir_by_name(home, name.as_str());
        let mut args: Vec<String> = Vec::new();
        let ghost chosen = opt_text(interpreter);
        let program = match interpreter {
            Some(i) => {
                let v = chars_of(i.as_str());
                if v.len() == 0 {
                    file_path.clone()
                } else {
                    if str_is(&v, "java") {
                        args.push(string_of(&chars_of("-jar")));
                    }
                    args.push(file_path.clone());
                    i
                }
            },
            None => file_path.clone(),
        };
        match arguments {
            Some(a) => {
                args.push(a);
            },
            None => {},
        }
        proof {
            assert(texts(args@) =~= arguments_for(file_path@, chosen, opt_text(arguments)));
        }
        Application {
            name,
            interpreter: program,
            args,
            file_path,
            app_dir,
            work_dir,
            stop_command: None,
        }
    }

    /// The descriptor that stands where none is meant.
    pub fn placeholder() -> (app: Application)
        ensures
            app@ == placeholder_descriptor(),
    {
        let app = Application {
            name: String::new(),
            interpreter: String::new(),
            args: Vec::new(),
            file_path: String::new(),
            app_dir: String::new(),
            work_dir: String::new(),
            stop_command: None,
        };
        assert(texts(app.args@) =~= Seq::<Seq<char>>::empty());
        app
    }

    /// The same descriptor with the given stop command.
    pub fn with_stop_command(self, stop_command: Option<String>) -> (app: Application)
        ensures
            app@ == (Descriptor { stop_command: opt_text(stop_command), ..self@ }),
    {
        Application {
            name: self.name,
            interpreter: self.interpreter,
            args: self.args,
            file_path: self.file_path,
            app_dir: self.app_dir,
            work_dir: self.work_dir,
            stop_command,
        }
    }

    /// The argument vector that the child is spawned from.
    pub fn cmd(&self) -> (r: Vec<String>)
        ensures
            texts(r@) == argv(self@),
    {
        let mut r: Vec<String> = Vec::new();
        r.push(self.interpreter.clone());
        let mut i: usize = 0;
        while i < self.args.len()
            invariant
                i <= self.args.len(),
                texts(r@) == seq![self.interpreter@] + texts(self.args@).subrange(0, i as int),
            decreases self.args.len() - i,
        {
            let ghost before = texts(r@);
            r.push(self.args[i].clone());
            proof {
                assert(texts(r@) =~= before.push(self.args@[i as int]@));
                assert(texts(self.args@).subrange(0, i + 1) =~= texts(self.args@).subrange(
                    0,
                    i as int,
                ).push(self.args@[i as int]@));
            }
            i += 1;
        }
        assert(texts(self.args@).subrange(0, self.args.len() as int) =~= texts(self.args@));
        r
    }
}

/// The parts of `s[start..]` between the characters `c`, without the empty
/// ones.
pub open spec fn fields_from(s: Seq<char>, c: char, start: int) -> Seq<Seq<char>>
    decreases s.len() - start,
{
    if 0 <= start < s.len() {
        let end = index_of(s, c, start);
        if start <= end <= s.len() {
            let rest = if end < s.len() {
                fields_from(s, c, end + 1)
            } else {
                Seq::empty()
            };
            if start < end {
                seq![s.subrange(start, end)] + rest
            } else {
                rest
            }
        } else {
            Seq::empty()
        }
    } else {
        Seq::empty()
    }
}

/// The process numbers that a PID file with the lines `fields` tells: none
/// for no line, else the first line's, and the second line's where there is
/// one. A line that is no process number is an error.
pub open spec fn pids_of_fields(fields: Seq<Seq<char>>) -> Result<Seq<u32>, CrescentError> {
    if fields.len() == 0 {
        Ok(Seq::empty())
    } else {
        match number_in(fields[0], u32::MAX as nat) {
            None => Err(CrescentError::InvalidPidFile),
            Some(first) => if fields.len() == 1 {
                Ok(seq![first as u32])
            } else {
                match number_in(fields[1], u32::MAX as nat) {
                    None => Err(CrescentError::InvalidPidFile),
                    Some(second) => Ok(seq![first as u32, second as u32]),
                }
            },
        }
    }
}

/// The process numbers that a PID file tells; a missing file tells none.
pub open spec fn pids_of_file(content: Option<Seq<char>>) -> Result<Seq<u32>, CrescentError> {
    match content {
        None => Ok(Seq::empty()),
        Some(text) => pids_of_fields(fields_from(text, '\n', 0)),
    }
}

/// One line of a PID file.
pub open spec fn pid_line_text(pid: u32) -> Seq<char> {
    decimal(pid as nat).push('\n')
}

/// The parts of `v` between the characters `c`, without the empty ones.
pub fn split_fields(v: &Vec<char>, c: char) -> (out: Vec<Vec<char>>)
    ensures
        rows(out@) == fields_from(v@, c, 0),
{
    let mut out: Vec<Vec<char>> = Vec::new();
    let mut start: usize = 0;
    assert(rows(out@) == Seq::<Seq<char>>::empty());
    while start < v.len()
        invariant
            start <= v.len(),
            rows(out@) + fields_from(v@, c, start as int) == fields_from(v@, c, 0),
        decreases v.len() - start,
    {
        let end = find_char(v, c, start);
        let ghost before = rows(out@);
        let ghost rest = if end < v.len() {
            fields_from(v@, c, end + 1)
        } else {
            Seq::<Seq<char>>::empty()
        };
        if start < end {
            let field = copy_range(v, start, end);
            out.push(field);
            proof {
                assert(rows(out@) == before.push(field@));
                assert(before.push(field@) + rest == before + (seq![field@] + rest));
            }
        }
        if end < v.len() {
            start = end + 1;
        } else {
            start = v.len();
        }
    }
    assert(rows(out@) + Seq::<Seq<char>>::empty() == rows(out@));
    out
}

/// Reads the process numbers that a PID file tells: the supervisor's
/// first, the child's second. `content` is what the file holds, or `None`
/// where there is no file.
pub fn process_pid_by_name(content: Option<&str>) -> (r: Result<Vec<u32>, CrescentError>)
    ensures
        match r {
            Ok(pids) => pids_of_file(
                match content {
                    Some(s) => Some(s@),
                    None => None,
                },
            ) == Ok::<Seq<u32>, CrescentError>(pids@),
            Err(e) => pids_of_file(
                match content {
                    Some(s) => Some(s@),
                    None => None,
                },
            ) == Err::<Seq<u32>, CrescentError>(e),
        },
{
    let mut pids: Vec<u32> = Vec::new();
    let text = match content {
        Some(text) => text,
        None => {
            return Ok(pids);
        },
    };
    let fields = split_fields(&chars_of(text), '\n');
    if fields.len() == 0 {
        return Ok(pids);
    }
    assert(rows(fields@)[0] == fields@[0]@);
    match parse_u32(&fields[0]) {
        Some(first) => {
            pids.push(first);
        },
        None => {
            return Err(CrescentError::InvalidPidFile);
        },
    }
    if fields.len() == 1 {
        assert(pids@ =~= seq![pids@[0]]);
        return Ok(pids);
    }
    assert(rows(fields@)[1] == fields@[1]@);
    match parse_u32(&fields[1]) {
        Some(second) => {
            pids.push(second);
        },
        None => {
            return Err(CrescentError::InvalidPidFile);
        },
    }
    assert(pids@ =~= seq![pids@[0], pids@[1]]);
    Ok(pids)
}

/// The line that tells `pid` in a PID file.
pub fn pid_line(pid: u32) -> (r: String)
    ensures
        r@ == pid_line_text(pid),
{
    let mut v = decimal_chars(pid as u64);
    v.push('\n');
    string_of(&v)
}

/// The first `c` at or after `from` stands at `at` where `at` holds `c` and
/// nothing between does.
proof fn lemma_index_of_at(s: Seq<char>, c: char, from: int, at: int)
    requires
        0 <= from <= at < s.len(),
        s[at] == c,
        forall|k: int| from <= k < at ==> #[trigger] s[k] != c,
    ensures
        index_of(s, c, from) == at,
    decreases at - from,
{
    if from < at {
        lemma_index_of_at(s, c, from + 1, at);
    }
}

/// A PID file made of the supervisor's line and the child's line tells
/// exactly these two processes, the supervisor first.
pub proof fn lemma_pid_file_round_trip(supervisor: u32, child: u32)
    ensures
        pids_of_file(Some(pid_line_text(supervisor) + pid_line_text(child))) == Ok::<
            Seq<u32>,
            CrescentError,
        >(seq![supervisor, child]),
{
    let a = decimal(supervisor as nat);
    let b = decimal(child as nat);
    let t = pid_line_text(supervisor) + pid_line_text(child);
    let la = a.len() as int;
    let lb = b.len() as int;
    lemma_decimal_digits(supervisor as nat);
    lemma_decimal_digits(child as nat);
    assert(t.len() == la + lb + 2);
    assert forall|k: int| 0 <= k < la implies #[trigger] t[k] != '\n' by {
        assert(t[k] == a[k]);
        assert(is_digit(a[k]));
    }
    assert(t[la] == '\n');
    lemma_index_of_at(t, '\n', 0, la);
    assert forall|k: int| la + 1 <= k < la + 1 + lb implies #[trigger] t[k] != '\n' by {
        assert(t[k] == b[k - la - 1]);
        assert(is_digit(b[k - la - 1]));
    }
    assert(t[la + 1 + lb] == '\n');
    lemma_index_of_at(t, '\n', la + 1, la + 1 + lb);
    assert(t.subrange(0, la) =~= a);
    assert(t.subrange(la + 1, la + 1 + lb) =~= b);
    assert(la > 0 && lb > 0);
    assert(fields_from(t, '\n', la + lb + 2) =~= Seq::<Seq<char>>::empty());
    let second = fields_from(t, '\n', la + 1);
    assert(index_of(t, '\n', la + 1) == la + 1 + lb);
    assert(second =~= seq![t.subrange(la + 1, la + 1 + lb)] + fields_from(
        t,
        '\n',
        la + lb + 2,
    ));
    assert(second =~= seq![b]);
    let all = fields_from(t, '\n', 0);
    assert(all =~= seq![a, b]);
    assert(number_in(a, u32::MAX as nat) == Some(supervisor as nat));
    assert(number_in(b, u32::MAX as nat) == Some(child as nat));
}

} // verus!
