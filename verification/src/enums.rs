//! An enum whose variants carry different kinds of associated data.

use vstd::prelude::*;

verus! {

/// An operating system, with the associated data its kind calls for.
#[derive(Debug)]
pub enum OperatingSystems {
    MacOS(String),
    Linux { distribution: String },
    Windows,
}

/// The number of years since the line's first release: one fixed count for
/// each kind of operating system.
#[allow(non_snake_case)]
pub fn years_since_OS_release(os: OperatingSystems) -> (years: u32)
    ensures
        os is Windows ==> years == 39,
        os is Linux ==> years == 34,
        os is MacOS ==> years == 23,
{
    match os {
        OperatingSystems::Windows => 39,
        OperatingSystems::Linux { distribution } => {
            let _ = distribution;
            34
        },
        OperatingSystems::MacOS(mac_os_version_string) => {
            let _ = mac_os_version_string;
            23
        },
    }
}

} // verus!
