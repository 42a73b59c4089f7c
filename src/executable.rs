//! The name under which the backend executable is looked up.
use vstd::prelude::*;

verus! {

/// Name of the backend executable on a platform: `backend.exe` on Windows,
/// `backend` everywhere else.
pub open spec fn executable_name_spec(windows: bool) -> Seq<char> {
    if windows {
        "backend.exe"@
    } else {
        "backend"@
    }
}

/// Returns the file name of the backend executable for the target platform.
pub fn backend_executable_name(windows: bool) -> (name: &'static str)
    ensures
        name@ == executable_name_spec(windows),
{
    if windows {
        "backend.exe"
    } else {
        "backend"
    }
}

} // verus!
