//! Sending a signal to a service.

use crate::application::{service_name_text, Application};
use crate::commands::plan::{framed, guarded, systemctl, Call, ServiceCall};
use crate::error::CrescentError;
use crate::text::{append_chars, chars_of, decimal, decimal_chars, string_of, texts};
use vstd::prelude::*;

verus! {

/// Send a signal to a service. Defaults to SIGTERM (15).
#[derive(Debug)]
pub struct KillArgs {
    /// Service name.
    pub name: String,
    /// Signal to send.
    pub signal: i32,
}

/// A signal's number as it is written.
pub open spec fn signal_text(signal: i32) -> Seq<char> {
    if signal < 0 {
        "-"@ + decimal((-signal) as nat)
    } else {
        decimal(signal as nat)
    }
}

/// The call that sends `signal` to the service of the application `name`.
pub open spec fn kill_call(name: Seq<char>, signal: i32) -> Call {
    Call {
        arguments: systemctl(
            seq!["kill"@, "--signal"@, signal_text(signal), service_name_text(name)],
        ),
        notices: seq![
            "Sending signal '"@ + service_name_text(name) + "'"@,
            "Signal: '"@ + signal_text(signal) + "'"@,
        ],
        report: "Sent signal to '"@ + service_name_text(name) + "'"@,
    }
}

/// A signal's number as it is written.
fn write_signal(signal: i32) -> (r: String)
    ensures
        r@ == signal_text(signal),
{
    let value: i64 = signal as i64;
    if value < 0 {
        let mut out = chars_of("-");
        append_chars(&mut out, &decimal_chars((0 - value) as u64));
        string_of(&out)
    } else {
        string_of(&decimal_chars(value as u64))
    }
}

impl KillArgs {
    /// Decides what the command does: the application must be there and
    /// its service must be running.
    pub fn run(self, exists: bool, running: bool) -> (r: Result<ServiceCall, CrescentError>)
        ensures
            match r {
                Ok(call) => guarded(exists, running, true, kill_call(self.name@, self.signal))
                    == Ok::<Call, CrescentError>(call@),
                Err(e) => guarded(exists, running, true, kill_call(self.name@, self.signal))
                    == Err::<Call, CrescentError>(e),
            },
    {
        let application = Application::from(self.name.as_str());
        match application.check_exists(exists) {
            Err(e) => {
                return Err(e);
            },
            Ok(()) => {},
        }
        if !running {
            return Err(CrescentError::ApplicationNotRunning);
        }
        let service = application.service_name.as_str();
        let signal = write_signal(self.signal);
        let mut arguments: Vec<String> = Vec::new();
        arguments.push(string_of(&chars_of("--user")));
        arguments.push(string_of(&chars_of("--no-pager")));
        arguments.push(string_of(&chars_of("kill")));
        arguments.push(string_of(&chars_of("--signal")));
        arguments.push(signal.clone());
        arguments.push(application.service_name.clone());
        let mut notices: Vec<String> = Vec::new();
        notices.push(framed("Sending signal '", service, "'"));
        notices.push(framed("Signal: '", signal.as_str(), "'"));
        proof {
            assert(texts(arguments@) =~= kill_call(self.name@, self.signal).arguments);
            assert(texts(notices@) =~= kill_call(self.name@, self.signal).notices);
        }
        Ok(ServiceCall { arguments, notices, report: framed("Sent signal to '", service, "'") })
    }
}

} // verus!
