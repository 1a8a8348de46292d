//! caffeine_core: the decision logic of the Caffeine Desktop keep-awake and
//! capture-proof blackout tool, with its contracts.

pub mod api;
pub mod autostart;
pub mod awake;
mod clock;
pub mod cursor_find;
pub mod gesture;
pub mod idle;
pub mod log;
pub mod manager;
pub mod osd;
pub mod overlay;
pub mod paths;
pub mod settings;
pub mod unlock;
pub mod win32;
