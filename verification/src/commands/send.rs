//! Sending a command to an application.

use crate::application::Application;
use crate::error::CrescentError;
use crate::subprocess::{frame_of, Event, SocketEvent};
use crate::text::{chars_of, is_blank, is_blank_chars, join, join_chars, rows, string_of, texts};
use vstd::prelude::*;

verus! {

/// Send a command to a service.
#[derive(Debug)]
pub struct SendArgs {
    /// Service name.
    pub name: String,
    /// The words of the command.
    pub command: Vec<String>,
}

/// What is sent for a command.
#[derive(Debug)]
pub struct Sending {
    /// The command.
    pub command: String,
    /// The command with a line feed, as it is written to the input of a
    /// service.
    pub line: String,
    /// The bytes that carry the command to a supervisor.
    pub frame: Vec<u8>,
}

/// What a sending holds.
pub struct Sent {
    pub command: Seq<char>,
    pub line: Seq<char>,
    pub frame: Seq<u8>,
}

impl View for Sending {
    type V = Sent;

    open spec fn view(&self) -> Sent {
        Sent { command: self.command@, line: self.line@, frame: self.frame@ }
    }
}

/// The command that the words make: the words with one space between each
/// two.
pub open spec fn command_text(words: Seq<Seq<char>>) -> Seq<char> {
    join(words, " "@)
}

/// What is sent for the words of a command, or the error that the command
/// is refused with: the application must be there, and the command must
/// not be empty or white space only.
pub open spec fn sending_for(words: Seq<Seq<char>>, exists: bool) -> Result<Sent, CrescentError> {
    if !exists {
        Err(CrescentError::ApplicationNotFound)
    } else if is_blank(command_text(words)) {
        Err(CrescentError::EmptyCommand)
    } else {
        Ok(
            Sent {
                command: command_text(words),
                line: command_text(words).push('\n'),
                frame: frame_of(Event::WriteStdin(command_text(words))),
            },
        )
    }
}

impl SendArgs {
    /// Decides what the command does.
    pub fn run(self, exists: bool) -> (r: Result<Sending, CrescentError>)
        ensures
            match r {
                Ok(sending) => sending_for(texts(self.command@), exists) == Ok::<
                    Sent,
                    CrescentError,
                >(sending@),
                Err(e) => sending_for(texts(self.command@), exists) == Err::<Sent, CrescentError>(
                    e,
                ),
            },
    {
        let application = Application::from(self.name.as_str());
        match application.check_exists(exists) {
            Err(e) => {
                return Err(e);
            },
            Ok(()) => {},
        }
        let mut words: Vec<Vec<char>> = Vec::new();
        let mut i: usize = 0;
        while i < self.command.len()
            invariant
                i <= self.command.len(),
                rows(words@) == texts(self.command@).subrange(0, i as int),
            decreases self.command.len() - i,
        {
            let ghost before = rows(words@);
            words.push(chars_of(self.command[i].as_str()));
            proof {
                assert(rows(words@) =~= before.push(self.command@[i as int]@));
                assert(texts(self.command@).subrange(0, i + 1) =~= texts(self.command@).subrange(
                    0,
                    i as int,
                ).push(self.command@[i as int]@));
            }
            i += 1;
        }
        assert(texts(self.command@).subrange(0, self.command.len() as int) =~= texts(
            self.command@,
        ));
        let cmd = join_chars(&words, &chars_of(" "));
        if is_blank_chars(&cmd) {
            return Err(CrescentError::EmptyCommand);
        }
        let command = string_of(&cmd);
        let mut line = cmd;
        line.push('\n');
        let event = SocketEvent::WriteStdin(command.clone());
        Ok(Sending { command, line: string_of(&line), frame: event.encode() })
    }
}

/// A command that is empty or white space only is never sent.
pub proof fn lemma_blank_command_refused(words: Seq<Seq<char>>, exists: bool)
    requires
        is_blank(command_text(words)),
    ensures
        sending_for(words, exists) is Err,
        exists ==> sending_for(words, exists) == Err::<Sent, CrescentError>(
            CrescentError::EmptyCommand,
        ),
{
}

} // verus!
