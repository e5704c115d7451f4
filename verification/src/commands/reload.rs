//! Reloading the service manager.

use crate::commands::plan::{plain_call, systemctl, Call, ServiceCall};
use crate::text::{chars_of, string_of, texts};
use vstd::prelude::*;

verus! {

/// Reload the init system to apply changes to scripts.
#[derive(Debug, Clone, Copy, PartialEq, Eq, Structural)]
pub struct ReloadArgs;

impl ReloadArgs {
    /// The call that reloads the service manager.
    pub fn run() -> (r: ServiceCall)
        ensures
            r@ == (Call {
                arguments: systemctl(seq!["daemon-reload"@]),
                notices: Seq::empty(),
                report: "Sent reload command to the init system"@,
            }),
    {
        let notices: Vec<String> = Vec::new();
        assert(texts(notices@) =~= Seq::<Seq<char>>::empty());
        ServiceCall {
            arguments: plain_call("daemon-reload"),
            notices,
            report: string_of(&chars_of("Sent reload command to the init system")),
        }
    }
}

} // verus!
