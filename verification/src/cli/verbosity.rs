//! The log filter that a count of `-v` flags selects.
use vstd::prelude::*;

verus! {

/// The filter for a verbosity level: "warn" for none, then "info", "debug",
/// and "trace" for three or more.
pub open spec fn filter_for(level: u8) -> Seq<char> {
    if level == 0 {
        "warn"@
    } else if level == 1 {
        "info"@
    } else if level == 2 {
        "debug"@
    } else {
        "trace"@
    }
}

/// The log filter for `level` occurrences of `-v`.
pub fn verbosity_filter(level: u8) -> (r: &'static str)
    ensures
        r@ == filter_for(level),
{
    match level {
        0 => "warn",
        1 => "info",
        2 => "debug",
        _ => "trace",
    }
}

} // verus!
