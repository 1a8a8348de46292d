//! Where the per-session diagnostic log lives.

use vstd::prelude::*;
use crate::paths::{join_path, join_spec};

verus! {

/// Path of the session log: `core.log` in the application's directory under
/// the local application-data directory (`LOCALAPPDATA`), or
/// `caffeine-core.log` in the working directory when that is unknown.
pub fn log_file_path(localappdata: Option<&str>) -> (r: String)
    ensures
        r@ == match localappdata {
            Some(b) => join_spec(join_spec(b@, "caffeine-desktop"@), "core.log"@),
            None => "caffeine-core.log"@,
        },
{
    match localappdata {
        Some(b) => {
            let dir = join_path(b, "caffeine-desktop");
            join_path(dir.as_str(), "core.log")
        },
        None => String::from_str("caffeine-core.log"),
    }
}

} // verus!
