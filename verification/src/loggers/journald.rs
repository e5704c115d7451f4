//! The journal of the `systemd` user manager.

use crate::logger::LogSystem;
use crate::text::{append_str, chars_of, decimal, decimal_chars, string_of, texts};
use vstd::prelude::*;

verus! {

/// `journald` implementation.
#[derive(Debug)]
pub struct Journald {
    service_name: String,
}

/// The arguments that every call of `journalctl` for a service starts
/// with.
pub open spec fn journal_base(service_name: Seq<char>) -> Seq<Seq<char>> {
    seq!["--user"@, "--unit"@, service_name, "--no-pager"@]
}

impl Journald {
    /// The name of the service whose journal is read.
    pub closed spec fn view(&self) -> Seq<char> {
        self.service_name@
    }

    /// The journal of the service of the application `service_name`.
    pub fn new(service_name: String) -> (r: Journald)
        ensures
            r@ == "cres."@ + service_name@ + ".service"@,
    {
        let mut name = chars_of("cres.");
        append_str(&mut name, service_name.as_str());
        append_str(&mut name, ".service");
        Journald { service_name: string_of(&name) }
    }

    /// The name of the service whose journal is read.
    pub fn service_name(&self) -> (r: String)
        ensures
            r@ == self@,
    {
        self.service_name.clone()
    }

    /// The arguments that every call starts with.
    fn base(&self) -> (r: Vec<String>)
        ensures
            texts(r@) == journal_base(self@),
    {
        let mut r: Vec<String> = Vec::new();
        r.push(string_of(&chars_of("--user")));
        r.push(string_of(&chars_of("--unit")));
        r.push(self.service_name.clone());
        r.push(string_of(&chars_of("--no-pager")));
        assert(texts(r@) =~= journal_base(self@));
        r
    }
}

impl LogSystem for Journald {
    /// The arguments of `journalctl` that print the last `n` lines of the
    /// service.
    fn log(&self, n: u64) -> (r: Vec<String>)
        ensures
            texts(r@) == journal_base(self@) + seq!["--lines"@, decimal(n as nat)],
    {
        let mut r = self.base();
        let ghost base = texts(r@);
        r.push(string_of(&chars_of("--lines")));
        r.push(string_of(&decimal_chars(n)));
        assert(texts(r@) =~= base + seq!["--lines"@, decimal(n as nat)]);
        r
    }

    /// The arguments of `journalctl` that follow the log for any new
    /// lines.
    fn follow(&self) -> (r: Vec<String>)
        ensures
            texts(r@) == journal_base(self@) + seq!["--follow"@],
    {
        let mut r = self.base();
        let ghost base = texts(r@);
        r.push(string_of(&chars_of("--follow")));
        assert(texts(r@) =~= base + seq!["--follow"@]);
        r
    }
}

} // verus!
