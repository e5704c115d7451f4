//! Showing what is known of a service.

use crate::application::Application;
use crate::error::CrescentError;
use crate::directory::{application_file_path, socket_path};
use crate::process::{argv, Application as Launch, Descriptor};
use crate::service::{Status, StatusOutput, StatusReport, StatusText};
use crate::text::{
    append_str, chars_of, decimal, decimal_chars, join, join_chars, rows, string_of, texts,
};
use vstd::prelude::*;

verus! {

/// Get information about a service.
#[derive(Debug)]
pub struct StatusArgs {
    /// Service name.
    pub name: String,
    /// Prints the output of the `status` command without any modification.
    pub raw: bool,
}

/// A field as it is shown: its name, a colon and a space, its value.
pub open spec fn field_line(name: Seq<char>, value: Seq<char>) -> Seq<char> {
    name + ": "@ + value
}

/// The lines that tell a status that was taken apart.
pub open spec fn pretty_lines(name: Seq<char>, s: StatusText, enabled: bool) -> Seq<Seq<char>> {
    seq![
        "Application information"@,
        field_line("Name"@, name),
        field_line("Status"@, s.active),
        field_line("Script"@, s.script),
        field_line("Stdin"@, s.stdin),
        field_line(
            "Enabled"@,
            if enabled {
                "true"@
            } else {
                "false"@
            },
        ),
        ""@,
        "Service information"@,
        field_line("PID"@, decimal(s.pid as nat)),
        field_line("CMD"@, s.cmd),
    ]
}

/// The lines that tell a status.
pub open spec fn status_lines(name: Seq<char>, report: StatusReport, enabled: bool) -> Seq<
    Seq<char>,
> {
    match report {
        StatusReport::Raw(output) => seq![output],
        StatusReport::Pretty(s) => pretty_lines(name, s, enabled),
    }
}

/// A field as it is shown.
fn write_field(name: &str, value: &str) -> (r: String)
    ensures
        r@ == field_line(name@, value@),
{
    let mut out = chars_of(name);
    append_str(&mut out, ": ");
    append_str(&mut out, value);
    string_of(&out)
}

impl StatusArgs {
    /// The lines that the command prints for the status of the service,
    /// apart from what is measured of its process. The application must be
    /// there.
    pub fn run(self, exists: bool, status: &StatusOutput, enabled: bool) -> (r: Result<
        Vec<String>,
        CrescentError,
    >)
        ensures
            !exists ==> r == Err::<Vec<String>, CrescentError>(
                CrescentError::ApplicationNotFound,
            ),
            exists ==> r is Ok && texts(r->Ok_0@) == status_lines(self.name@, status@, enabled),
    {
        let application = Application::from(self.name.as_str());
        match application.check_exists(exists) {
            Err(e) => {
                return Err(e);
            },
            Ok(()) => {},
        }
        let mut out: Vec<String> = Vec::new();
        match status {
            StatusOutput::Raw(output) => {
                out.push(output.clone());
                assert(texts(out@) =~= status_lines(self.name@, status@, enabled));
            },
            StatusOutput::Pretty(status) => {
                out.push(string_of(&chars_of("Application information")));
                out.push(write_field("Name", application.name.as_str()));
                out.push(write_field("Status", status.active.as_str()));
                out.push(write_field("Script", status.script.as_str()));
                out.push(write_field("Stdin", status.stdin.as_str()));
                out.push(
                    write_field(
                        "Enabled",
                        if enabled {
                            "true"
                        } else {
                            "false"
                        },
                    ),
                );
                out.push(string_of(&chars_of("")));
                out.push(string_of(&chars_of("Service information")));
                let pid = string_of(&decimal_chars(status.pid as u64));
                out.push(write_field("PID", pid.as_str()));
                out.push(write_field("CMD", status.cmd.as_str()));
                assert(texts(out@) =~= pretty_lines(self.name@, status@, enabled));
            },
        }
        Ok(out)
    }
}

/// The status of an application that a supervisor runs: its executable
/// stands for the script, its control socket for the input, and its
/// argument vector, with spaces between, for the command.
pub open spec fn supervised_text(app: Descriptor, pid: u32, home: Seq<char>) -> StatusText {
    StatusText {
        script: app.file_path,
        stdin: application_file_path(home, app.name, ".sock"@),
        pid,
        active: "active (running)"@,
        cmd: join(argv(app), " "@),
    }
}

/// The status of an application that a supervisor runs, whose child is the
/// process `pid`.
pub fn supervised_status(app: &Launch, pid: u32, home: &str) -> (r: Status)
    ensures
        r@ == supervised_text(app@, pid, home@),
{
    let argv = app.cmd();
    let mut parts: Vec<Vec<char>> = Vec::new();
    let mut i: usize = 0;
    while i < argv.len()
        invariant
            i <= argv.len(),
            rows(parts@) == texts(argv@).subrange(0, i as int),
        decreases argv.len() - i,
    {
        let ghost before = rows(parts@);
        parts.push(chars_of(argv[i].as_str()));
        proof {
            assert(rows(parts@) =~= before.push(argv@[i as int]@));
            assert(texts(argv@).subrange(0, i + 1) =~= texts(argv@).subrange(0, i as int).push(
                argv@[i as int]@,
            ));
        }
        i += 1;
    }
    assert(texts(argv@).subrange(0, argv.len() as int) =~= texts(argv@));
    Status {
        script: app.file_path.clone(),
        stdin: socket_path(home, app.name.as_str()),
        pid,
        active: string_of(&chars_of("active (running)")),
        cmd: string_of(&join_chars(&parts, &chars_of(" "))),
    }
}

} // verus!
