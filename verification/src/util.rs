//! Small helpers for what is shown to the user.

use crate::text::{append_str, decimal, decimal_chars, string_of};
use vstd::prelude::*;

verus! {

/// The unit of time in which `secs` seconds are told: 0 for seconds, 1 for
/// minutes, 2 for hours, 3 for days.
pub open spec fn uptime_unit(secs: nat) -> nat {
    if secs <= 59 {
        0
    } else if secs / 60 <= 59 {
        1
    } else if secs / 60 / 60 <= 23 {
        2
    } else {
        3
    }
}

/// How many whole units of `uptime_unit(secs)` lie in `secs` seconds.
pub open spec fn uptime_count(secs: nat) -> nat {
    if secs <= 59 {
        secs
    } else if secs / 60 <= 59 {
        secs / 60
    } else if secs / 60 / 60 <= 23 {
        secs / 60 / 60
    } else {
        secs / 60 / 60 / 24
    }
}

/// The name of a unit of time.
pub open spec fn unit_name(unit: nat) -> Seq<char> {
    if unit == 0 {
        "second"@
    } else if unit == 1 {
        "minute"@
    } else if unit == 2 {
        "hour"@
    } else {
        "day"@
    }
}

/// An uptime as it is shown: the count, a space, and the unit's name, in
/// the plural where the count is more than one.
pub open spec fn uptime_text(secs: nat) -> Seq<char> {
    let count = uptime_count(secs);
    let base = decimal(count) + " "@ + unit_name(uptime_unit(secs));
    if count > 1 {
        base + "s"@
    } else {
        base
    }
}

/// Format uptime in a human-readable format.
pub fn get_uptime_from_seconds(secs: u64) -> (r: String)
    ensures
        r@ == uptime_text(secs as nat),
{
    let mins: u64 = secs / 60;
    let hours: u64 = mins / 60;
    let days: u64 = hours / 24;
    let count: u64 = if secs <= 59 {
        secs
    } else if mins <= 59 {
        mins
    } else if hours <= 23 {
        hours
    } else {
        days
    };
    let mut out = decimal_chars(count);
    append_str(&mut out, " ");
    if secs <= 59 {
        append_str(&mut out, "second");
    } else if mins <= 59 {
        append_str(&mut out, "minute");
    } else if hours <= 23 {
        append_str(&mut out, "hour");
    } else {
        append_str(&mut out, "day");
    }
    if count > 1 {
        append_str(&mut out, "s");
    }
    string_of(&out)
}

} // verus!
