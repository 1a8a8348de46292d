//! Keep-awake: the execution-state flags to request, and the owner thread
//! that is the only one ever to request them (the state is per-thread, so
//! asserts and releases must happen on one thread).
//!
//! While the state is asserted, the owner wakes every `REASSERT_SECS` and
//! asserts it again; while released it blocks until the next command.

use vstd::prelude::*;

verus! {

/// ES_CONTINUOUS: the requested state stays in effect until changed.
pub const ES_CONTINUOUS: u32 = 0x8000_0000;
/// ES_SYSTEM_REQUIRED: no system sleep.
pub const ES_SYSTEM_REQUIRED: u32 = 0x0000_0001;
/// ES_DISPLAY_REQUIRED: the display stays on.
pub const ES_DISPLAY_REQUIRED: u32 = 0x0000_0002;
/// Re-assert interval while awake (some drivers/power tools clear the state).
pub const REASSERT_SECS: u64 = 30;
/// How long a caller waits for the owner to confirm a command.
pub const ACK_TIMEOUT_SECS: u64 = 2;

/// The execution state to request: continuous display + system required
/// when `on`, plain continuous (release) otherwise.
pub open spec fn execution_state_spec(on: bool) -> u32 {
    if on { 0x8000_0003u32 } else { 0x8000_0000u32 }
}

/// The execution-state flags for keep-awake `on` / released.
pub fn execution_state(on: bool) -> (r: u32)
    ensures
        r == execution_state_spec(on),
{
    if on {
        let r = ES_CONTINUOUS | ES_DISPLAY_REQUIRED | ES_SYSTEM_REQUIRED;
        assert(0x8000_0000u32 | 0x0000_0002u32 | 0x0000_0001u32 == 0x8000_0003u32) by (bit_vector);
        r
    } else {
        ES_CONTINUOUS
    }
}

/// What wakes the owner thread.
#[derive(Debug, Clone, Copy, PartialEq, Eq, Structural)]
pub enum OwnerEvent {
    /// A caller asks for keep-awake on (true) or off (false).
    Command(bool),
    /// The re-assert interval elapsed with no command.
    Timeout,
    /// Every sender is gone.
    Disconnected,
}

/// The owner thread's state: whether keep-awake is currently asserted.
#[derive(Debug, Clone, Copy, PartialEq, Eq, Structural)]
pub struct AwakeOwner {
    pub asserted: bool,
}

/// The owner after one wake-up, and the flags it requests (`None`: exit).
pub open spec fn owner_step(o: AwakeOwner, ev: OwnerEvent) -> (AwakeOwner, Option<u32>) {
    match ev {
        OwnerEvent::Command(on) => (AwakeOwner { asserted: on }, Some(execution_state_spec(on))),
        OwnerEvent::Timeout => (o, Some(execution_state_spec(true))),
        OwnerEvent::Disconnected => (o, None),
    }
}

impl AwakeOwner {
    /// Nothing asserted yet.
    pub fn new() -> (o: AwakeOwner)
        ensures
            !o.asserted,
    {
        AwakeOwner { asserted: false }
    }

    /// Whether the owner waits with the re-assert timeout (true) or blocks
    /// until the next command (false).
    pub fn waits_with_timeout(&self) -> (r: bool)
        ensures
            r == self.asserted,
    {
        self.asserted
    }

    /// Handle one wake-up: `Some(flags)` to request, or `None` to exit.
    pub fn on_event(&mut self, ev: OwnerEvent) -> (r: Option<u32>)
        ensures
            (*final(self), r) == owner_step(*old(self), ev),
    {
        match ev {
            OwnerEvent::Command(on) => {
                self.asserted = on;
                Some(execution_state(on))
            },
            OwnerEvent::Timeout => Some(execution_state(true)),
            OwnerEvent::Disconnected => None,
        }
    }
}

/// A release command leaves the owner blocking without a timeout, so it
/// never re-asserts keep-awake by itself; only a new "on" command asserts
/// it again. A timeout (which only happens while asserted) re-asserts
/// display and system, and the release request drops both.
pub proof fn law_release_sticks(o: AwakeOwner)
    ensures
        !owner_step(o, OwnerEvent::Command(false)).0.asserted,
        owner_step(o, OwnerEvent::Timeout).0 == o,
        owner_step(o, OwnerEvent::Timeout).1 == Some(execution_state_spec(true)),
        execution_state_spec(false) & 0x3u32 == 0,
        execution_state_spec(true) & 0x3u32 == 0x3u32,
        execution_state_spec(false) & 0x8000_0000u32 != 0,
{
    assert(0x8000_0000u32 & 0x3u32 == 0) by (bit_vector);
    assert(0x8000_0003u32 & 0x3u32 == 0x3u32) by (bit_vector);
    assert(0x8000_0000u32 & 0x8000_0000u32 != 0) by (bit_vector);
}

} // verus!
