//! The `systemd` user manager: the names and unit files of a service, and
//! what its `systemctl` prints.

use crate::service::{
    InitSystem, Status, StatusError, StatusOutput, StatusReport, StatusText,
};
use crate::text::{
    after_first, append_str, before_first, before_text, chars_of, contains,
    contains_chars, find_row_with, find_text, first_row_with, join, join_chars, lines, rows,
    split_lines, split_words, starts_with_chars, str_is, string_of, take_after, take_before,
    texts, trim, trim_chars, unsigned_in, words, copy_range, occurs_at, parse_unsigned,
};
use vstd::prelude::*;

verus! {

/// `systemd` implementation.
#[derive(Debug)]
pub struct Systemd {
    /// `<name>`
    name: String,
    /// `cres.<name>.service`
    service_name: String,
    /// `cres.<name>.socket`
    socket_name: String,
}

/// The names that a `systemd` service goes by.
pub struct Units {
    pub name: Seq<char>,
    pub service_name: Seq<char>,
    pub socket_name: Seq<char>,
}

impl View for Systemd {
    type V = Units;

    closed spec fn view(&self) -> Units {
        Units {
            name: self.name@,
            service_name: self.service_name@,
            socket_name: self.socket_name@,
        }
    }
}

/// No service chosen yet.
pub open spec fn no_units() -> Units {
    Units { name: Seq::empty(), service_name: Seq::empty(), socket_name: Seq::empty() }
}

/// The names for the service of the application `name`.
pub open spec fn units_for(name: Seq<char>) -> Units {
    Units {
        name,
        service_name: "cres."@ + name + ".service"@,
        socket_name: "cres."@ + name + ".socket"@,
    }
}

/// The directory of the user's unit files.
pub open spec fn scripts_dir(home: Seq<char>) -> Seq<char> {
    home + "/.config/systemd/user/"@
}

/// The lines joined, each followed by a line feed but the last.
pub open spec fn unit_text(unit_lines: Seq<Seq<char>>) -> Seq<char> {
    join(unit_lines, "\n"@)
}

/// The lines of the service unit that runs `cmd`.
pub open spec fn service_unit_lines(u: Units, cmd: Seq<char>) -> Seq<Seq<char>> {
    seq![
        "[Unit]"@,
        "Description=Service unit for '"@ + u.name + "'"@,
        "Requires="@ + u.socket_name,
        "After=network.target "@ + u.socket_name,
        ""@,
        "[Service]"@,
        "Type=exec"@,
        "ExecStart="@ + cmd,
        "StandardInput=socket"@,
        "StandardOutput=journal"@,
        "StandardError=journal"@,
        ""@,
        "[Install]"@,
        "WantedBy=default.target"@,
        ""@,
    ]
}

/// The lines of the socket unit that feeds the service's standard input.
pub open spec fn socket_unit_lines(u: Units, home: Seq<char>) -> Seq<Seq<char>> {
    seq![
        "[Unit]"@,
        "Description=Socket unit for '"@ + u.service_name + "'"@,
        ""@,
        "[Socket]"@,
        "ListenFIFO="@ + home + "/.crescent/apps/"@ + "/"@ + u.name + "/stdin"@,
        ""@,
        "[Install]"@,
        "WantedBy=sockets.target"@,
        ""@,
    ]
}

/// The piece of `line` between its first and its second `c`, or behind its
/// first `c` where there is no second; none where it holds no `c`.
pub open spec fn second_piece(line: Seq<char>, c: char) -> Option<Seq<char>> {
    match after_first(line, c) {
        Some(rest) => Some(before_first(rest, c)),
        None => None,
    }
}

/// The unit file that the `Loaded:` line names: what stands between the
/// opening parenthesis and the first semicolon, without the white space
/// around it.
pub open spec fn script_of(line: Seq<char>) -> Seq<char> {
    match second_piece(line, '(') {
        Some(piece) => trim(before_first(piece, ';')),
        None => Seq::empty(),
    }
}

/// What the `Active:` line tells: what stands between its first two
/// colons, without the white space around it.
pub open spec fn state_of(line: Seq<char>) -> Seq<char> {
    match second_piece(line, ':') {
        Some(piece) => trim(piece),
        None => Seq::empty(),
    }
}

/// The main process that the `Main PID:` line tells: the second of the
/// pieces, divided by single spaces, of what stands between its first two
/// colons.
pub open spec fn pid_of(line: Seq<char>) -> Option<u32> {
    match second_piece(line, ':') {
        Some(piece) => match second_piece(piece, ' ') {
            Some(number) => match unsigned_in(number, u32::MAX as nat) {
                Some(n) => Some(n as u32),
                None => None,
            },
            None => None,
        },
        None => None,
    }
}

/// The words of `line` but the first, with one space between each two.
pub open spec fn command_of(line: Seq<char>) -> Seq<char> {
    let w = words(line);
    if w.len() == 0 {
        Seq::empty()
    } else {
        join(w.subrange(1, w.len() as int), " "@)
    }
}

/// The status that the output of `systemctl status` tells.
///
/// The lines that hold `Loaded:`, `Active:` and `Main PID:` are looked for
/// one behind the other. A service whose state does not start with
/// `active` is told in the manager's own words. The command is taken from
/// the line that stands as far behind the first line as the `CGroup:` line
/// stands behind the one that follows `Main PID:`, and one more.
pub open spec fn status_of(stdout: Seq<char>, raw: bool, u: Units, home: Seq<char>) -> Result<
    StatusReport,
    StatusError,
> {
    let all = lines(stdout);
    let loaded = first_row_with(all, "Loaded:"@, 0);
    let active = first_row_with(all, "Active:"@, loaded + 1);
    let main = first_row_with(all, "Main PID:"@, active + 1);
    let cgroup = first_row_with(all, "CGroup:"@, main + 1);
    let command = cgroup - (main + 1) + 1;
    if raw {
        Ok(StatusReport::Raw(stdout))
    } else if loaded >= all.len() {
        Err(StatusError::LoadedMissing)
    } else if active >= all.len() {
        Err(StatusError::ActiveMissing)
    } else if !occurs_at(state_of(all[active]), "active"@, 0) {
        Ok(StatusReport::Raw(stdout))
    } else if main >= all.len() {
        Err(StatusError::PidMissing)
    } else if pid_of(all[main]) is None {
        Err(StatusError::PidInvalid)
    } else if cgroup >= all.len() || command >= all.len() {
        Err(StatusError::CGroupMissing)
    } else {
        Ok(
            StatusReport::Pretty(
                StatusText {
                    script: script_of(all[loaded]),
                    stdin: home + "/.crescent/apps/"@ + u.name + "/"@ + u.name + ".stdin"@,
                    pid: pid_of(all[main])->0,
                    active: trim(before_text(state_of(all[active]), "since"@)),
                    cmd: command_of(all[command]),
                },
            ),
        )
    }
}

/// The names that a line of `systemctl list-unit-files` gives where it
/// tells a service of this supervisor: its first word.
pub open spec fn listed_name(line: Seq<char>) -> Option<Seq<char>> {
    if contains(line, "cres."@) && contains(line, ".service"@) {
        let w = words(line);
        if w.len() > 0 {
            Some(w[0])
        } else {
            Some(Seq::empty())
        }
    } else {
        None
    }
}

/// The names that the lines `all[from..]` give.
pub open spec fn listed_from(all: Seq<Seq<char>>, from: int) -> Seq<Seq<char>>
    decreases all.len() - from,
{
    if from < 0 || from >= all.len() {
        Seq::empty()
    } else {
        match listed_name(all[from]) {
            Some(name) => seq![name] + listed_from(all, from + 1),
            None => listed_from(all, from + 1),
        }
    }
}

/// The piece of `line` between its first and its second `c`.
fn take_second_piece(line: &Vec<char>, c: char) -> (r: Option<Vec<char>>)
    ensures
        match r {
            Some(piece) => second_piece(line@, c) == Some(piece@),
            None => second_piece(line@, c) is None,
        },
{
    match take_after(line, c) {
        Some(rest) => Some(take_before(&rest, c)),
        None => None,
    }
}

/// The unit file that the `Loaded:` line names.
fn read_script(line: &Vec<char>) -> (r: Vec<char>)
    ensures
        r@ == script_of(line@),
{
    match take_second_piece(line, '(') {
        Some(piece) => trim_chars(&take_before(&piece, ';')),
        None => Vec::new(),
    }
}

/// What the `Active:` line tells.
fn read_state(line: &Vec<char>) -> (r: Vec<char>)
    ensures
        r@ == state_of(line@),
{
    match take_second_piece(line, ':') {
        Some(piece) => trim_chars(&piece),
        None => Vec::new(),
    }
}

/// The main process that the `Main PID:` line tells.
fn read_pid(line: &Vec<char>) -> (r: Option<u32>)
    ensures
        r == pid_of(line@),
{
    match take_second_piece(line, ':') {
        Some(piece) => match take_second_piece(&piece, ' ') {
            Some(number) => parse_unsigned(&number),
            None => None,
        },
        None => None,
    }
}

/// The words of `line` but the first, with one space between each two.
fn read_command(line: &Vec<char>) -> (r: Vec<char>)
    ensures
        r@ == command_of(line@),
{
    let w = split_words(line);
    if w.len() == 0 {
        return Vec::new();
    }
    let mut rest: Vec<Vec<char>> = Vec::new();
    let mut i: usize = 1;
    while i < w.len()
        invariant
            1 <= i <= w.len(),
            rows(rest@) == rows(w@).subrange(1, i as int),
        decreases w.len() - i,
    {
        let ghost before = rows(rest@);
        rest.push(copy_range(&w[i], 0, w[i].len()));
        proof {
            assert(w@[i as int]@.subrange(0, w@[i as int]@.len() as int) == w@[i as int]@);
            assert(rows(rest@) =~= before.push(w@[i as int]@));
            assert(rows(w@).subrange(1, i + 1) =~= rows(w@).subrange(1, i as int).push(
                w@[i as int]@,
            ));
        }
        i += 1;
    }
    join_chars(&rest, &chars_of(" "))
}

impl Systemd {
    /// A manager with no service chosen yet.
    pub fn new() -> (r: Systemd)
        ensures
            r@ == no_units(),
    {
        Systemd { name: String::new(), service_name: String::new(), socket_name: String::new() }
    }


    /// The application's name.
    pub fn name(&self) -> (r: String)
        ensures
            r@ == self@.name,
    {
        self.name.clone()
    }

    /// The name of the service unit.
    pub fn service_name(&self) -> (r: String)
        ensures
            r@ == self@.service_name,
    {
        self.service_name.clone()
    }

    /// The name of the socket unit.
    pub fn socket_name(&self) -> (r: String)
        ensures
            r@ == self@.socket_name,
    {
        self.socket_name.clone()
    }


    /// The text of the service unit that runs `cmd`.
    pub fn service_unit(&self, cmd: &str) -> (r: String)
        ensures
            r@ == unit_text(service_unit_lines(self@, cmd@)),
    {
        let mut all: Vec<Vec<char>> = Vec::new();
        all.push(chars_of("[Unit]"));
        let mut description = chars_of("Description=Service unit for '");
        append_str(&mut description, self.name.as_str());
        append_str(&mut description, "'");
        all.push(description);
        let mut requires_line = chars_of("Requires=");
        append_str(&mut requires_line, self.socket_name.as_str());
        all.push(requires_line);
        let mut after = chars_of("After=network.target ");
        append_str(&mut after, self.socket_name.as_str());
        all.push(after);
        all.push(chars_of(""));
        all.push(chars_of("[Service]"));
        all.push(chars_of("Type=exec"));
        let mut exec_start = chars_of("ExecStart=");
        append_str(&mut exec_start, cmd);
        all.push(exec_start);
        all.push(chars_of("StandardInput=socket"));
        all.push(chars_of("StandardOutput=journal"));
        all.push(chars_of("StandardError=journal"));
        all.push(chars_of(""));
        all.push(chars_of("[Install]"));
        all.push(chars_of("WantedBy=default.target"));
        all.push(chars_of(""));
        assert(rows(all@) =~= service_unit_lines(self@, cmd@));
        string_of(&join_chars(&all, &chars_of("\n")))
    }

    /// The text of the socket unit that feeds the service's standard
    /// input.
    pub fn socket_unit(&self, home: &str) -> (r: String)
        ensures
            r@ == unit_text(socket_unit_lines(self@, home@)),
    {
        let mut all: Vec<Vec<char>> = Vec::new();
        all.push(chars_of("[Unit]"));
        let mut description = chars_of("Description=Socket unit for '");
        append_str(&mut description, self.service_name.as_str());
        append_str(&mut description, "'");
        all.push(description);
        all.push(chars_of(""));
        all.push(chars_of("[Socket]"));
        let mut listen = chars_of("ListenFIFO=");
        append_str(&mut listen, home);
        append_str(&mut listen, "/.crescent/apps/");
        append_str(&mut listen, "/");
        append_str(&mut listen, self.name.as_str());
        append_str(&mut listen, "/stdin");
        all.push(listen);
        all.push(chars_of(""));
        all.push(chars_of("[Install]"));
        all.push(chars_of("WantedBy=sockets.target"));
        all.push(chars_of(""));
        assert(rows(all@) =~= socket_unit_lines(self@, home@));
        string_of(&join_chars(&all, &chars_of("\n")))
    }



}

impl InitSystem for Systemd {
    /// Set the service name being queried.
    fn set_service_name(&mut self, name: &str)
        ensures
            final(self)@ == units_for(name@),
    {
        let mut service = chars_of("cres.");
        append_str(&mut service, name);
        let mut socket = copy_range(&service, 0, service.len());
        append_str(&mut service, ".service");
        append_str(&mut socket, ".socket");
        proof {
            assert(socket@ =~= "cres."@ + name@ + ".socket"@);
        }
        self.name = string_of(&chars_of(name));
        self.service_name = string_of(&service);
        self.socket_name = string_of(&socket);
    }

    /// Returns the absolute paths of all generated scripts: the service
    /// unit's and the socket unit's.
    fn get_scripts_paths(&self, home: &str) -> (r: Vec<String>)
        ensures
            texts(r@) == seq![
                scripts_dir(home@) + self@.service_name,
                scripts_dir(home@) + self@.socket_name,
            ],
    {
        let mut dir = chars_of(home);
        append_str(&mut dir, "/.config/systemd/user/");
        let mut service = copy_range(&dir, 0, dir.len());
        append_str(&mut service, self.service_name.as_str());
        let mut socket = copy_range(&dir, 0, dir.len());
        append_str(&mut socket, self.socket_name.as_str());
        let mut r: Vec<String> = Vec::new();
        r.push(string_of(&service));
        r.push(string_of(&socket));
        proof {
            assert(dir@.subrange(0, dir@.len() as int) == dir@);
            assert(texts(r@) =~= seq![
                scripts_dir(home@) + self@.service_name,
                scripts_dir(home@) + self@.socket_name,
            ]);
        }
        r
    }

    /// Checks if the service is running, from what `systemctl is-active`
    /// printed.
    fn is_running(&self, stdout: &str) -> (r: bool)
        ensures
            r == (trim(stdout@) == "active"@),
    {
        let state = trim_chars(&chars_of(stdout));
        str_is(&state, "active")
    }

    /// List basic infomation of all services, from what
    /// `systemctl list-unit-files` printed: the names of the units that
    /// are services of this supervisor.
    fn list(&self, stdout: &str) -> (r: Vec<String>)
        ensures
            texts(r@) == listed_from(lines(stdout@), 0),
    {
        let all = split_lines(&chars_of(stdout));
        let mut out: Vec<String> = Vec::new();
        let mut i: usize = 0;
        let prefix = chars_of("cres.");
        let suffix = chars_of(".service");
        assert(texts(out@) =~= Seq::<Seq<char>>::empty());
        while i < all.len()
            invariant
                i <= all.len(),
                prefix@ == "cres."@,
                suffix@ == ".service"@,
                texts(out@) + listed_from(rows(all@), i as int) == listed_from(rows(all@), 0),
            decreases all.len() - i,
        {
            assert(rows(all@)[i as int] == all@[i as int]@);
            let ghost before = texts(out@);
            let ghost rest = listed_from(rows(all@), i + 1);
            if contains_chars(&all[i], &prefix) && contains_chars(&all[i], &suffix) {
                let w = split_words(&all[i]);
                let first = if w.len() > 0 {
                    assert(rows(w@)[0] == w@[0]@);
                    string_of(&w[0])
                } else {
                    String::new()
                };
                let ghost name = first@;
                out.push(first);
                proof {
                    assert(texts(out@) =~= before.push(name));
                    assert(before.push(name) + rest == before + (seq![name] + rest));
                }
            }
            i += 1;
        }
        assert(texts(out@) + Seq::<Seq<char>>::empty() == texts(out@));
        out
    }

    /// Checks if the service is enabled for startup, from what
    /// `systemctl is-enabled` printed.
    fn is_enabled(&self, stdout: &str) -> (r: bool)
        ensures
            r == (trim(stdout@) == "enabled"@),
    {
        let state = trim_chars(&chars_of(stdout));
        str_is(&state, "enabled")
    }

    /// Request the status of the service, from what `systemctl status`
    /// printed.
    fn status(&self, stdout: &str, raw: bool, home: &str) -> (r: Result<
        StatusOutput,
        StatusError,
    >)
        ensures
            match r {
                Ok(output) => status_of(stdout@, raw, self@, home@) == Ok::<
                    StatusReport,
                    StatusError,
                >(output@),
                Err(e) => status_of(stdout@, raw, self@, home@) == Err::<
                    StatusReport,
                    StatusError,
                >(e),
            },
    {
        if raw {
            return Ok(StatusOutput::Raw(string_of(&chars_of(stdout))));
        }
        let all = split_lines(&chars_of(stdout));
        let n = all.len();
        let loaded = find_row_with(&all, &chars_of("Loaded:"), 0);
        if loaded >= n {
            return Err(StatusError::LoadedMissing);
        }
        let active = find_row_with(&all, &chars_of("Active:"), loaded + 1);
        if active >= n {
            return Err(StatusError::ActiveMissing);
        }
        assert(rows(all@)[loaded as int] == all@[loaded as int]@);
        assert(rows(all@)[active as int] == all@[active as int]@);
        let state = read_state(&all[active]);
        if !starts_with_chars(&state, &chars_of("active")) {
            return Ok(StatusOutput::Raw(string_of(&chars_of(stdout))));
        }
        let main = find_row_with(&all, &chars_of("Main PID:"), active + 1);
        if main >= n {
            return Err(StatusError::PidMissing);
        }
        assert(rows(all@)[main as int] == all@[main as int]@);
        let pid = match read_pid(&all[main]) {
            Some(pid) => pid,
            None => {
                return Err(StatusError::PidInvalid);
            },
        };
        let cgroup = find_row_with(&all, &chars_of("CGroup:"), main + 1);
        if cgroup >= n {
            return Err(StatusError::CGroupMissing);
        }
        let command = cgroup - (main + 1) + 1;
        if command >= n {
            return Err(StatusError::CGroupMissing);
        }
        assert(rows(all@)[command as int] == all@[command as int]@);
        let script = read_script(&all[loaded]);
        let mut stdin = chars_of(home);
        append_str(&mut stdin, "/.crescent/apps/");
        append_str(&mut stdin, self.name.as_str());
        append_str(&mut stdin, "/");
        append_str(&mut stdin, self.name.as_str());
        append_str(&mut stdin, ".stdin");
        let since = find_text(&state, &chars_of("since"), 0);
        let shown = trim_chars(&copy_range(&state, 0, since));
        let cmd = read_command(&all[command]);
        Ok(
            StatusOutput::Pretty(
                Status {
                    script: string_of(&script),
                    stdin: string_of(&stdin),
                    pid,
                    active: string_of(&shown),
                    cmd: string_of(&cmd),
                },
            ),
        )
    }
}

} // verus!
