//! An application as the commands know it: its name, the name of its
//! service, its files, and whether it is there and running.

use crate::error::CrescentError;
use crate::subprocess::{event_of_frame, Event, SocketEvent};
use crate::text::{append_str, chars_of, lines, rows, split_lines, string_of, texts};
use vstd::prelude::*;

verus! {

/// An application, by its name.
#[derive(Debug)]
pub struct Application {
    /// The application's name.
    pub name: String,
    /// The name of the service that runs it: `cres.<name>.service`.
    pub service_name: String,
}

/// The name of the service that runs the application `name`.
pub open spec fn service_name_text(name: Seq<char>) -> Seq<char> {
    "cres."@ + name + ".service"@
}

/// The path of the file `file` of the application `name`, under the
/// applications' directory of the home directory `home`.
pub open spec fn app_file_text(home: Seq<char>, name: Seq<char>, file: Seq<char>) -> Seq<char> {
    home + "/.crescent/apps/"@ + "/"@ + name + "/"@ + file
}

/// How an attempt to ping the supervisor ended.
#[derive(Debug)]
pub enum PingOutcome {
    /// The socket could not be reached.
    ConnectFailed,
    /// The socket was reached and failed afterwards.
    Failed,
    /// The supervisor answered with these bytes.
    Answered(Vec<u8>),
}

/// Whether an application is running, or the error that kept this from
/// being told. It runs where the PID file tells two process numbers and
/// the supervisor answers a ping with `Ping`. A socket that cannot be
/// reached is a stale one: the application does not run. Any other failure
/// on the socket is an error.
pub open spec fn running_from(pids: int, ping: PingOutcome) -> Result<bool, CrescentError> {
    if pids < 2 {
        Ok(false)
    } else {
        match ping {
            PingOutcome::ConnectFailed => Ok(false),
            PingOutcome::Failed => Err(CrescentError::SocketError),
            PingOutcome::Answered(bytes) => Ok(event_of_frame(bytes@) == Some(Event::Ping)),
        }
    }
}

impl Application {
    /// The application named `name`.
    pub fn from(name: &str) -> (r: Application)
        ensures
            r.name@ == name@,
            r.service_name@ == service_name_text(name@),
    {
        let mut service = chars_of("cres.");
        append_str(&mut service, name);
        append_str(&mut service, ".service");
        Application { name: string_of(&chars_of(name)), service_name: string_of(&service) }
    }

    /// Check if application exists, return an error if it doesn't.
    /// `dir_exists` tells whether the application's directory is there.
    pub fn check_exists(&self, dir_exists: bool) -> (r: Result<(), CrescentError>)
        ensures
            r == (if dir_exists {
                Ok::<(), CrescentError>(())
            } else {
                Err::<(), CrescentError>(CrescentError::ApplicationNotFound)
            }),
    {
        if dir_exists {
            Ok(())
        } else {
            Err(CrescentError::ApplicationNotFound)
        }
    }

    /// The path of the file `file` of this application.
    fn file_path(&self, home: &str, file: &str) -> (r: String)
        ensures
            r@ == app_file_text(home@, self.name@, file@),
    {
        let mut path = chars_of(home);
        append_str(&mut path, "/.crescent/apps/");
        append_str(&mut path, "/");
        append_str(&mut path, self.name.as_str());
        append_str(&mut path, "/");
        append_str(&mut path, file);
        string_of(&path)
    }

    /// Get the path to the application's stdin file.
    pub fn stdin_path(&self, home: &str) -> (r: String)
        ensures
            r@ == app_file_text(home@, self.name@, "stdin"@),
    {
        self.file_path(home, "stdin")
    }

    /// Get the path to the application's history file.
    pub fn history_path(&self, home: &str) -> (r: String)
        ensures
            r@ == app_file_text(home@, self.name@, "history"@),
    {
        self.file_path(home, "history")
    }

    /// The commands that the history file holds, one on each line, the
    /// last line first. `content` is what the file holds.
    pub fn read_command_history(&self, content: &str) -> (r: Vec<String>)
        ensures
            texts(r@) == lines(content@).reverse(),
    {
        let all = split_lines(&chars_of(content));
        let mut out: Vec<String> = Vec::new();
        let n = all.len();
        let mut i: usize = n;
        while i > 0
            invariant
                i <= n,
                n == all.len(),
                out.len() == n - i,
                forall|j: int| 0 <= j < out.len() ==> out@[j]@ == #[trigger] all@[n - 1 - j]@,
            decreases i,
        {
            i -= 1;
            out.push(string_of(&all[i]));
        }
        assert(texts(out@) =~= rows(all@).reverse());
        out
    }
}

/// Check if application exists, return an error if it doesn't.
pub fn check_app_exists(dir_exists: bool) -> (r: Result<(), CrescentError>)
    ensures
        r == (if dir_exists {
            Ok::<(), CrescentError>(())
        } else {
            Err::<(), CrescentError>(CrescentError::ApplicationNotFound)
        }),
{
    if dir_exists {
        Ok(())
    } else {
        Err(CrescentError::ApplicationNotFound)
    }
}

/// Tells whether an application is running, from the process numbers in
/// its PID file and from how a fresh ping of its supervisor ended.
pub fn app_already_running(pids: &Vec<u32>, ping: PingOutcome) -> (r: Result<bool, CrescentError>)
    ensures
        r == running_from(pids.len() as int, ping),
{
    if pids.len() < 2 {
        return Ok(false);
    }
    match ping {
        PingOutcome::ConnectFailed => Ok(false),
        PingOutcome::Failed => Err(CrescentError::SocketError),
        PingOutcome::Answered(bytes) => match SocketEvent::decode(bytes.as_slice()) {
            Some(SocketEvent::Ping) => Ok(true),
            _ => Ok(false),
        },
    }
}

/// A PID file with fewer than two process numbers means that the
/// application does not run, whatever the socket says.
pub proof fn lemma_short_pid_file_not_running(pids: int, ping: PingOutcome)
    requires
        pids < 2,
    ensures
        running_from(pids, ping) == Ok::<bool, CrescentError>(false),
{
}

} // verus!
