//! Unlock gesture evaluation: which keys dismiss the blackout, and a
//! stateful move/shake detector over the trailing mouse path.
//!
//! Straight synthetic mouse paths (an automation agent driving the pointer)
//! never reverse direction, so they never match a shake.

use std::collections::VecDeque;
use vstd::prelude::*;
use crate::clock::now_ms;
use crate::gesture::{lemma_monotone_no_flips, x_monotone, flips, path_len, record, record_sample, stroke_summary, Sample};
use crate::settings::{UnlockKey, UnlockMouse};

verus! {

/// Mouse trail window for shake detection (ms).
pub const SHAKE_WINDOW_MS: u128 = 2000;
/// Minimum horizontal excursion (px) for a segment to count as a stroke.
pub const SHAKE_MIN_DX: i32 = 25;
/// Direction reversals required for a shake.
pub const SHAKE_FLIPS_NEEDED: u32 = 3;
/// Minimum total pointer path (px) inside the window for a shake.
pub const SHAKE_MIN_PATH: i64 = 450;
/// Pixel distance from the blackout-start anchor that counts as "move".
pub const MOVE_UNLOCK_PX: i32 = 60;

/// Virtual-key code of ESC.
pub const VK_ESCAPE: u32 = 0x1B;
/// Virtual-key code of Space.
pub const VK_SPACE: u32 = 0x20;
/// Virtual-key code of Enter.
pub const VK_RETURN: u32 = 0x0D;

/// Hook code meaning "the hook must process this message".
pub const HC_ACTION: i32 = 0;
/// Key went down.
pub const WM_KEYDOWN: u32 = 256;
/// Key went down with Alt held (or F10).
pub const WM_SYSKEYDOWN: u32 = 260;
/// Pointer moved.
pub const WM_MOUSEMOVE: u32 = 512;
/// Left button went down.
pub const WM_LBUTTONDOWN: u32 = 513;
/// Right button went down.
pub const WM_RBUTTONDOWN: u32 = 516;
/// Middle button went down.
pub const WM_MBUTTONDOWN: u32 = 519;

/// A raw input observation from the global hooks.
#[derive(Debug, Clone, Copy, PartialEq, Eq, Structural)]
pub enum InputEvent {
    /// A key went down (virtual-key code).
    Key(u32),
    /// The pointer moved to (x, y).
    Move(i32, i32),
    /// A mouse button went down.
    Click,
}

/// The event a low-level keyboard hook call reports: key-down messages
/// processed with `HC_ACTION` carry the virtual-key code; anything else is
/// ignored.
pub fn keyboard_event(code: i32, msg: u32, vk: u32) -> (r: Option<InputEvent>)
    ensures
        r == (if code == HC_ACTION && (msg == WM_KEYDOWN || msg == WM_SYSKEYDOWN) {
            Some(InputEvent::Key(vk))
        } else {
            None::<InputEvent>
        }),
{
    if code == HC_ACTION && (msg == WM_KEYDOWN || msg == WM_SYSKEYDOWN) {
        Some(InputEvent::Key(vk))
    } else {
        None
    }
}

/// The event a low-level mouse hook call reports: a move carries the
/// pointer position, any of the three button-down messages is a click;
/// anything else (or a code other than `HC_ACTION`) is ignored.
pub fn mouse_event(code: i32, msg: u32, x: i32, y: i32) -> (r: Option<InputEvent>)
    ensures
        r == (if code != HC_ACTION {
            None::<InputEvent>
        } else if msg == WM_MOUSEMOVE {
            Some(InputEvent::Move(x, y))
        } else if msg == WM_LBUTTONDOWN || msg == WM_RBUTTONDOWN || msg == WM_MBUTTONDOWN {
            Some(InputEvent::Click)
        } else {
            None::<InputEvent>
        }),
{
    if code != HC_ACTION {
        None
    } else if msg == WM_MOUSEMOVE {
        Some(InputEvent::Move(x, y))
    } else if msg == WM_LBUTTONDOWN || msg == WM_RBUTTONDOWN || msg == WM_MBUTTONDOWN {
        Some(InputEvent::Click)
    } else {
        None
    }
}

/// Whether key `vk` dismisses the blackout under `mode`.
pub open spec fn key_unlocks_spec(mode: UnlockKey, vk: u32) -> bool {
    match mode {
        UnlockKey::Any => true,
        UnlockKey::Esc => vk == VK_ESCAPE,
        UnlockKey::Space => vk == VK_SPACE,
        UnlockKey::Enter => vk == VK_RETURN,
    }
}

/// Whether key `vk` dismisses the blackout under `mode`.
pub fn key_unlocks(mode: UnlockKey, vk: u32) -> (r: bool)
    ensures
        r == key_unlocks_spec(mode, vk),
        mode is Any ==> r,
        mode is Esc ==> (r <==> vk == 0x1Bu32),
        mode is Space ==> (r <==> vk == 0x20u32),
        mode is Enter ==> (r <==> vk == 0x0Du32),
{
    match mode {
        UnlockKey::Any => true,
        UnlockKey::Esc => vk == VK_ESCAPE,
        UnlockKey::Space => vk == VK_SPACE,
        UnlockKey::Enter => vk == VK_RETURN,
    }
}

/// Which key dismisses under each keyboard mode: any key, or exactly the
/// one virtual-key code of ESC (0x1B), Space (0x20) or Enter (0x0D).
pub proof fn law_unlock_key_codes(vk: u32)
    ensures
        key_unlocks_spec(UnlockKey::Any, vk),
        key_unlocks_spec(UnlockKey::Esc, vk) <==> vk == 0x1Bu32,
        key_unlocks_spec(UnlockKey::Space, vk) <==> vk == 0x20u32,
        key_unlocks_spec(UnlockKey::Enter, vk) <==> vk == 0x0Du32,
{
}

/// The pointer is at least `MOVE_UNLOCK_PX` away from the anchor.
pub open spec fn moved_away(anchor: (i32, i32), x: i32, y: i32) -> bool {
    (x - anchor.0) * (x - anchor.0) + (y - anchor.1) * (y - anchor.1)
        >= MOVE_UNLOCK_PX * MOVE_UNLOCK_PX
}

/// The trail holds a deliberate side-to-side shake.
pub open spec fn is_unlock_shake(trail: Seq<Sample>) -> bool {
    flips(trail, SHAKE_MIN_DX as int) >= SHAKE_FLIPS_NEEDED && path_len(trail) >= SHAKE_MIN_PATH
}

/// Whether the latest pointer position at (x, y), with the given anchor and
/// trail, dismisses the blackout under `mode`.
pub open spec fn mouse_unlocks(mode: UnlockMouse, anchor: (i32, i32), trail: Seq<Sample>, x: i32, y: i32) -> bool {
    match mode {
        UnlockMouse::Off => false,
        UnlockMouse::Click => false,
        UnlockMouse::Move => moved_away(anchor, x, y),
        UnlockMouse::Shake => is_unlock_shake(trail),
    }
}

/// The tracker state after observing (x, y) at time `now`: the first
/// position ever observed becomes the anchor, and the sample joins the
/// trailing window.
pub open spec fn shake_step(s: (Option<(i32, i32)>, Seq<Sample>), x: i32, y: i32, now: u128) -> (Option<(i32, i32)>, Seq<Sample>) {
    (
        if s.0 is None { Some((x, y)) } else { s.0 },
        record(s.1, now, x, y, SHAKE_WINDOW_MS),
    )
}

/// A trail whose pointer never reverses horizontal direction (a straight
/// synthetic drag, or purely vertical motion) never satisfies the shake
/// unlock.
pub proof fn law_straight_path_never_unlocks(anchor: (i32, i32), trail: Seq<Sample>, x: i32, y: i32)
    requires
        x_monotone(trail),
    ensures
        !mouse_unlocks(UnlockMouse::Shake, anchor, trail, x, y),
{
    lemma_monotone_no_flips(trail, SHAKE_MIN_DX as int);
}

/// The anchor is the first position observed since the last reset: later
/// samples never move it.
pub proof fn law_anchor_is_first_position(s: (Option<(i32, i32)>, Seq<Sample>), x: i32, y: i32, now: u128)
    ensures
        shake_step(s, x, y, now).0 == (if s.0 is None { Some((x, y)) } else { s.0 }),
        s.0 is Some ==> shake_step(s, x, y, now).0 == s.0,
{
}

/// Stateful shake/move detector over a trailing mouse path.
#[derive(Debug)]
pub struct ShakeTracker {
    anchor: Option<(i32, i32)>,
    trail: VecDeque<Sample>,
}

impl View for ShakeTracker {
    /// (anchor, trailing samples)
    type V = (Option<(i32, i32)>, Seq<Sample>);

    closed spec fn view(&self) -> Self::V {
        (self.anchor, self.trail@)
    }
}

impl Default for ShakeTracker {
    fn default() -> (t: ShakeTracker)
        ensures
            t@ == (None::<(i32, i32)>, Seq::<Sample>::empty()),
    {
        ShakeTracker::new()
    }
}

impl ShakeTracker {
    /// A tracker with no anchor and an empty trail.
    pub fn new() -> (t: ShakeTracker)
        ensures
            t@ == (None::<(i32, i32)>, Seq::<Sample>::empty()),
    {
        ShakeTracker { anchor: None, trail: VecDeque::new() }
    }

    /// Forget the anchor and the trail.
    pub fn reset(&mut self)
        ensures
            final(self)@ == (None::<(i32, i32)>, Seq::<Sample>::empty()),
    {
        self.anchor = None;
        self.trail.clear();
    }

    /// Feed a mouse position observed at time `now` (ms). Returns true when
    /// `mode` is satisfied.
    pub fn feed_at(&mut self, mode: UnlockMouse, x: i32, y: i32, now: u128) -> (r: bool)
        ensures
            final(self)@ == shake_step(old(self)@, x, y, now),
            r == mouse_unlocks(mode, final(self)@.0.unwrap(), final(self)@.1, x, y),
    {
        if self.anchor.is_none() {
            self.anchor = Some((x, y));
        }
        record_sample(&mut self.trail, now, x, y, SHAKE_WINDOW_MS);
        match mode {
            UnlockMouse::Off => false,
            UnlockMouse::Click => false,
            UnlockMouse::Move => {
                match self.anchor {
                    Some((ax, ay)) => {
                        let dx: i128 = x as i128 - ax as i128;
                        let dy: i128 = y as i128 - ay as i128;
                        assert(dx * dx <= 0x1_0000_0000_0000_0000) by (nonlinear_arith)
                            requires -0x1_0000_0000 <= dx <= 0x1_0000_0000;
                        assert(dy * dy <= 0x1_0000_0000_0000_0000) by (nonlinear_arith)
                            requires -0x1_0000_0000 <= dy <= 0x1_0000_0000;
                        assert(dx * dx >= 0 && dy * dy >= 0) by (nonlinear_arith);
                        let m: i128 = MOVE_UNLOCK_PX as i128;
                        assert(m * m == 3600) by (nonlinear_arith)
                            requires m == 60;
                        dx * dx + dy * dy >= m * m
                    },
                    None => false,
                }
            },
            UnlockMouse::Shake => {
                let (flips, path, _, _) = stroke_summary(&self.trail, SHAKE_MIN_DX as i64, x);
                flips >= SHAKE_FLIPS_NEEDED as u64 && path >= SHAKE_MIN_PATH as u128
            },
        }
    }

    /// Feed a mouse position, stamped with the current wall-clock time.
    /// Returns true when `mode` is satisfied.
    pub fn feed(&mut self, mode: UnlockMouse, x: i32, y: i32) -> (r: bool)
        ensures
            exists|now: u128|
                #[trigger] shake_step(old(self)@, x, y, now) == final(self)@ && r == mouse_unlocks(
                    mode,
                    final(self)@.0.unwrap(),
                    final(self)@.1,
                    x,
                    y,
                ),
    {
        let now = now_ms();
        self.feed_at(mode, x, y, now)
    }
}

} // verus!
