//! One call of the service manager, with what the user is told around it.

use crate::error::CrescentError;
use crate::text::{append_str, chars_of, string_of, texts};
use vstd::prelude::*;

verus! {

/// One call of `systemctl`, with what the user is told before and after.
#[derive(Debug)]
pub struct ServiceCall {
    /// The arguments of the call.
    pub arguments: Vec<String>,
    /// The lines told before the call, on standard error.
    pub notices: Vec<String>,
    /// The line told after the call, on standard output.
    pub report: String,
}

/// What a call holds.
pub struct Call {
    pub arguments: Seq<Seq<char>>,
    pub notices: Seq<Seq<char>>,
    pub report: Seq<char>,
}

impl View for ServiceCall {
    type V = Call;

    open spec fn view(&self) -> Call {
        Call {
            arguments: texts(self.arguments@),
            notices: texts(self.notices@),
            report: self.report@,
        }
    }
}

/// The arguments of a call of `systemctl` as the user.
pub open spec fn systemctl(arguments: Seq<Seq<char>>) -> Seq<Seq<char>> {
    seq!["--user"@, "--no-pager"@] + arguments
}

/// A command on an application that has to be there and, where `running`
/// is asked for, to be running.
pub open spec fn guarded<T>(exists: bool, running: bool, needs_running: bool, done: T) -> Result<
    T,
    CrescentError,
> {
    if !exists {
        Err(CrescentError::ApplicationNotFound)
    } else if needs_running && !running {
        Err(CrescentError::ApplicationNotRunning)
    } else {
        Ok(done)
    }
}

/// `before`, `name` and `after` in a row.
pub fn framed(before: &str, name: &str, after: &str) -> (r: String)
    ensures
        r@ == before@ + name@ + after@,
{
    let mut out = chars_of(before);
    append_str(&mut out, name);
    append_str(&mut out, after);
    string_of(&out)
}

/// The arguments of a call of `systemctl` with `verb` on `unit`.
pub fn unit_call(verb: &str, unit: &str) -> (r: Vec<String>)
    ensures
        texts(r@) == systemctl(seq![verb@, unit@]),
{
    let mut r: Vec<String> = Vec::new();
    r.push(string_of(&chars_of("--user")));
    r.push(string_of(&chars_of("--no-pager")));
    r.push(string_of(&chars_of(verb)));
    r.push(string_of(&chars_of(unit)));
    assert(texts(r@) =~= systemctl(seq![verb@, unit@]));
    r
}

/// The arguments of a call of `systemctl` with `verb` alone.
pub fn plain_call(verb: &str) -> (r: Vec<String>)
    ensures
        texts(r@) == systemctl(seq![verb@]),
{
    let mut r: Vec<String> = Vec::new();
    r.push(string_of(&chars_of("--user")));
    r.push(string_of(&chars_of("--no-pager")));
    r.push(string_of(&chars_of(verb)));
    assert(texts(r@) =~= systemctl(seq![verb@]));
    r
}

/// A list with `line` alone.
pub fn one_line(line: String) -> (r: Vec<String>)
    ensures
        texts(r@) == seq![line@],
{
    let mut r: Vec<String> = Vec::new();
    r.push(line);
    assert(texts(r@) =~= seq![r@[0]@]);
    r
}

} // verus!
