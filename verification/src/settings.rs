//! Persistent user settings. The on-disk JSON schema is shared with the GUI;
//! this module holds the plain values and their documented defaults.

use vstd::prelude::*;
use crate::paths::{join_path, join_spec};

verus! {

/// How the blackout overlay is dismissed via keyboard.
#[derive(Debug, Clone, Copy, PartialEq, Eq, Structural)]
pub enum UnlockKey {
    /// Any key press dismisses.
    Any,
    /// Only ESC dismisses.
    Esc,
    /// Only Space dismisses.
    Space,
    /// Only Enter dismisses.
    Enter,
}

/// How the blackout overlay is dismissed via mouse.
#[derive(Debug, Clone, Copy, PartialEq, Eq, Structural)]
pub enum UnlockMouse {
    /// Mouse never dismisses (keyboard only).
    Off,
    /// Pointer movement beyond a small threshold dismisses.
    Move,
    /// A deliberate side-to-side shake dismisses.
    Shake,
    /// Any mouse button click dismisses.
    Click,
}

/// Where the status OSD is anchored on the primary monitor.
#[derive(Debug, Clone, Copy, PartialEq, Eq, Structural)]
pub enum OsdPosition {
    TopLeft,
    TopCenter,
    TopRight,
    MiddleLeft,
    Center,
    MiddleRight,
    BottomLeft,
    BottomCenter,
    BottomRight,
}

/// The user's settings.
#[derive(Debug, Clone, Copy, PartialEq, Eq, Structural)]
pub struct Settings {
    /// Keep display/system awake.
    pub awake_enabled: bool,
    /// Auto blackout after `auto_blackout_secs` idle seconds (toggle).
    pub auto_blackout_enabled: bool,
    /// Idle seconds before auto blackout.
    pub auto_blackout_secs: u64,
    /// Keyboard dismiss method.
    pub unlock_key: UnlockKey,
    /// Mouse dismiss method.
    pub unlock_mouse: UnlockMouse,
    /// Start minimized to tray (settings window hidden).
    pub start_minimized: bool,
    /// Show the tiny always-on-top status OSD.
    pub osd_enabled: bool,
    /// OSD anchor position (9-way).
    pub osd_position: OsdPosition,
    /// Shake-to-find-the-cursor gesture enabled.
    pub cursor_find_enabled: bool,
    /// The find effect enlarges the cursor.
    pub cursor_find_magnify: bool,
    /// The find effect draws ripples around the cursor.
    pub cursor_find_ripple: bool,
    /// The find effect shows direction arrows on the other monitors.
    pub cursor_find_arrows: bool,
}

/// Value of `osd_enabled` when a settings file does not name it.
pub fn default_osd_enabled() -> (r: bool)
    ensures
        r,
{
    true
}

/// Value of `osd_position` when a settings file does not name it.
pub fn default_osd_position() -> (r: OsdPosition)
    ensures
        r == OsdPosition::TopRight,
{
    OsdPosition::TopRight
}

/// Value of the cursor-find switches when a settings file does not name them.
pub fn default_cursor_find() -> (r: bool)
    ensures
        r,
{
    true
}

/// The product defaults, as a value.
pub open spec fn default_settings() -> Settings {
    Settings {
        awake_enabled: true,
        auto_blackout_enabled: true,
        auto_blackout_secs: 300,
        unlock_key: UnlockKey::Esc,
        unlock_mouse: UnlockMouse::Shake,
        start_minimized: false,
        osd_enabled: true,
        osd_position: OsdPosition::TopRight,
        cursor_find_enabled: true,
        cursor_find_magnify: true,
        cursor_find_ripple: true,
        cursor_find_arrows: true,
    }
}

impl Default for Settings {
    fn default() -> (r: Settings)
        ensures
            r == default_settings(),
    {
        Settings {
            awake_enabled: true,
            auto_blackout_enabled: true,
            auto_blackout_secs: 300,
            unlock_key: UnlockKey::Esc,
            unlock_mouse: UnlockMouse::Shake,
            start_minimized: false,
            osd_enabled: default_osd_enabled(),
            osd_position: default_osd_position(),
            cursor_find_enabled: default_cursor_find(),
            cursor_find_magnify: default_cursor_find(),
            cursor_find_ripple: default_cursor_find(),
            cursor_find_arrows: default_cursor_find(),
        }
    }
}

impl Settings {
    /// Location of the settings file under the roaming application-data
    /// directory (`APPDATA`; `.` when it is unknown).
    pub fn file_path(appdata: Option<&str>) -> (r: String)
        ensures
            r@ == join_spec(
                join_spec(
                    match appdata {
                        Some(a) => a@,
                        None => "."@,
                    },
                    "caffeine-desktop"@,
                ),
                "settings.json"@,
            ),
    {
        let base: &str = match appdata {
            Some(a) => a,
            None => ".",
        };
        let dir = join_path(base, "caffeine-desktop");
        join_path(dir.as_str(), "settings.json")
    }
}

} // verus!
