//! The operating-system part of a full audit report.
use crate::common::types::SystemInfo;
use crate::text::{owned, parse_u32, parse_u32_spec};
use vstd::prelude::*;

verus! {

/// The build number assumed when the registry gives none that parses.
pub const DEFAULT_BUILD: u32 = 22631;

/// The operating-system record of an audit, from the product name and build
/// number that the registry gave (if it did) and the computer name from the
/// environment (if set). Missing values fall back to "Windows 11", build
/// [`DEFAULT_BUILD`] and "Unknown"; the edition is "Pro".
pub fn system_info(
    product_name: Option<String>,
    build_text: Option<String>,
    computer_name: Option<String>,
) -> (r: SystemInfo)
    ensures
        r.os_version@ == match product_name {
            Some(p) => p@,
            None => "Windows 11"@,
        },
        r.build_number == match build_text {
            Some(b) => match parse_u32_spec(b@) {
                Some(n) => n,
                None => DEFAULT_BUILD,
            },
            None => DEFAULT_BUILD,
        },
        r.edition@ == "Pro"@,
        r.hostname@ == match computer_name {
            Some(h) => h@,
            None => "Unknown"@,
        },
{
    let os_version = match product_name {
        Some(p) => p,
        None => owned("Windows 11"),
    };
    let build_number = match build_text {
        Some(b) => match parse_u32(b.as_str()) {
            Some(n) => n,
            None => DEFAULT_BUILD,
        },
        None => DEFAULT_BUILD,
    };
    let hostname = match computer_name {
        Some(h) => h,
        None => owned("Unknown"),
    };
    SystemInfo { os_version, build_number, edition: owned("Pro"), hostname }
}

} // verus!
