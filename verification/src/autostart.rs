//! The per-user startup shortcut ("Caffeine Desktop.lnk"): where it lives
//! and how it launches. The in-app toggle manages the same shortcut the
//! installer's startup task creates, and it always launches with
//! `--background` so boot-time starts land in the tray.

use vstd::prelude::*;
use crate::paths::{join_path, join_spec};

verus! {

/// File name of the startup shortcut.
pub const SHORTCUT_NAME: &'static str = "Caffeine Desktop.lnk";
/// Command-line argument the shortcut launches with (tray-only start).
pub const BACKGROUND_ARG: &'static str = "--background";

/// Full path of the startup shortcut under the roaming application-data
/// directory `base`.
pub open spec fn shortcut_path_spec(base: Seq<char>) -> Seq<char> {
    join_spec(
        join_spec(
            join_spec(join_spec(join_spec(join_spec(base, "Microsoft"@), "Windows"@), "Start Menu"@), "Programs"@),
            "Startup"@,
        ),
        SHORTCUT_NAME@,
    )
}

/// Full path of the per-user startup shortcut, given the roaming
/// application-data directory (`APPDATA`); `.` when it is unknown.
pub fn shortcut_path(appdata: Option<&str>) -> (r: String)
    ensures
        r@ == shortcut_path_spec(
            match appdata {
                Some(a) => a@,
                None => "."@,
            },
        ),
{
    let base: &str = match appdata {
        Some(a) => a,
        None => ".",
    };
    let p = join_path(base, "Microsoft");
    let p = join_path(p.as_str(), "Windows");
    let p = join_path(p.as_str(), "Start Menu");
    let p = join_path(p.as_str(), "Programs");
    let p = join_path(p.as_str(), "Startup");
    join_path(p.as_str(), SHORTCUT_NAME)
}

} // verus!
