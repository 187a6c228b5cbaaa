//! The host's path conventions, as a plain value.
use vstd::prelude::*;

verus! {

/// The two path conventions the tool distinguishes: Windows (`Scripts\`,
/// `.exe` shims, `npm.cmd`) and everything else (`bin/`, bare names).
#[derive(Clone, Copy, Debug, PartialEq, Eq, Structural)]
pub enum Platform {
    Windows,
    Unix,
}

/// Calls `std::path::is_separator`: whether `c` separates path components
/// on the platform this program was built for. Its documentation states that
/// `/` is a separator everywhere; whether `\` is one depends on the target
/// (it is on Windows only), so nothing more is stated.
#[verifier::external_body]
fn is_path_separator(c: char) -> (b: bool)
    ensures
        c == '/' ==> b,
{
    std::path::is_separator(c)
}

/// The platform whose paths have the backslash as a separator exactly when
/// `backslash_separates`: Windows if so, any other platform if not.
pub open spec fn platform_view(backslash_separates: bool) -> Platform {
    if backslash_separates {
        Platform::Windows
    } else {
        Platform::Unix
    }
}

/// The platform for the answer to "does the backslash separate path
/// components here?".
pub fn platform_of(backslash_separates: bool) -> (p: Platform)
    ensures
        p == platform_view(backslash_separates),
{
    if backslash_separates {
        Platform::Windows
    } else {
        Platform::Unix
    }
}

/// The platform this program runs on: Windows exactly when the backslash
/// separates path components. Which that is depends on the build target,
/// which nothing here can state.
pub fn host_platform() -> (p: Platform) {
    platform_of(is_path_separator('\\'))
}

} // verus!
