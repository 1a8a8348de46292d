//! The process core: settings, keep-awake flag, blackout overlay and worker
//! start-up, as a state machine. Every operation updates the core and lists
//! the outside work ([`CoreAction`]) the host performs, in order.
//!
//! Also here: the routing of raw input events between the unlock gesture
//! (while a blackout shows) and the find-cursor gesture (otherwise), and the
//! idle watcher's auto-blackout rule.

use vstd::prelude::*;
use crate::cursor_find::{find_step, FindDetector, FindOpts};
use crate::gesture::Sample;
use crate::osd::{visible_spec, OsdState};
use crate::overlay::{without, HideOutcome, OverlayManager};
use crate::settings::{Settings, UnlockMouse};
use crate::unlock::{key_unlocks, key_unlocks_spec, mouse_unlocks, shake_step, InputEvent, ShakeTracker};

verus! {

/// What the GUI is told about the core.
#[derive(Debug)]
pub struct Status {
    pub awake: bool,
    pub blackout: bool,
    pub auto_blackout: bool,
    pub auto_blackout_secs: u64,
    pub version: String,
}

impl Clone for Status {
    fn clone(&self) -> (r: Status)
        ensures
            r.awake == self.awake,
            r.blackout == self.blackout,
            r.auto_blackout == self.auto_blackout,
            r.auto_blackout_secs == self.auto_blackout_secs,
            r.version@ == self.version@,
    {
        Status {
            awake: self.awake,
            blackout: self.blackout,
            auto_blackout: self.auto_blackout,
            auto_blackout_secs: self.auto_blackout_secs,
            version: self.version.clone(),
        }
    }
}

/// Outside work requested by a core operation.
#[derive(Debug, Clone, Copy, PartialEq, Eq, Structural)]
pub enum CoreAction {
    /// Assert (true) or release (false) the keep-awake state.
    ApplyAwake(bool),
    /// Persist these settings. With `report`, a failure ends the operation:
    /// it is returned to the caller and the remaining actions are skipped;
    /// without it, a failure is ignored.
    SaveSettings { settings: Settings, report: bool },
    /// Stop the find-cursor effect.
    CancelFind,
    /// Start the blackout window thread.
    SpawnOverlay,
    /// Ask the blackout window thread (if registered) to close.
    CloseOverlay(Option<u32>),
    /// Push the current status to the watchers and the OSD.
    Emit,
    /// Start the input-routing and idle-watching workers.
    SpawnWorkers,
}

/// The process core.
#[derive(Debug)]
pub struct Core {
    pub settings: Settings,
    pub awake_on: bool,
    pub overlay: OverlayManager,
    pub workers_started: bool,
    pub version: String,
    /// The registered status watchers, by id, oldest first.
    pub watchers: Vec<u64>,
    /// The id the next watcher receives.
    pub next_watcher: u64,
}

/// The core as values.
pub struct CoreView {
    pub settings: Settings,
    pub awake_on: bool,
    pub overlay: OverlayManager,
    pub workers_started: bool,
    pub version: Seq<char>,
    pub watchers: Seq<u64>,
    pub next_watcher: u64,
}

impl View for Core {
    type V = CoreView;

    open spec fn view(&self) -> CoreView {
        CoreView {
            settings: self.settings,
            awake_on: self.awake_on,
            overlay: self.overlay,
            workers_started: self.workers_started,
            version: self.version@,
            watchers: self.watchers@,
            next_watcher: self.next_watcher,
        }
    }
}

/// The watcher list is well formed: ids strictly increase along it (so
/// none occurs twice) and every id was handed out already.
pub open spec fn watchers_wf(v: CoreView) -> bool {
    &&& forall|i: int, j: int| 0 <= i < j < v.watchers.len() ==> v.watchers[i] < v.watchers[j]
    &&& forall|i: int| 0 <= i < v.watchers.len() ==> v.watchers[i] < v.next_watcher
}

/// The core after a new watcher registered: it receives the next id and
/// goes to the end of the list.
pub open spec fn with_watcher_added(v: CoreView) -> CoreView {
    CoreView { watchers: v.watchers.push(v.next_watcher), next_watcher: (v.next_watcher + 1) as u64, ..v }
}

/// The core after the watchers `gone` (whose last push failed) were
/// dropped: the others stay, in order.
pub open spec fn with_watchers_dropped(v: CoreView, gone: Seq<u64>) -> CoreView {
    CoreView { watchers: without(v.watchers, gone), ..v }
}

/// The status fields (awake, blackout, auto_blackout, auto_blackout_secs)
/// the GUI is shown for a core.
pub open spec fn status_of(v: CoreView) -> (bool, bool, bool, u64) {
    (v.awake_on, v.overlay.alive, v.settings.auto_blackout_enabled, v.settings.auto_blackout_secs)
}

/// The status fields of a `Status` value.
pub open spec fn status_fields(st: Status) -> (bool, bool, bool, u64) {
    (st.awake, st.blackout, st.auto_blackout, st.auto_blackout_secs)
}

/// The OSD state the core shows: the OSD switches from the settings, the
/// live keep-awake and blackout state, and the find icon for the enabled
/// find-cursor feature.
pub open spec fn osd_state_of(v: CoreView) -> OsdState {
    OsdState {
        enabled: v.settings.osd_enabled,
        position: v.settings.osd_position,
        awake: v.awake_on,
        auto_blackout: v.settings.auto_blackout_enabled,
        blackout: v.overlay.alive,
        find: v.settings.cursor_find_enabled,
    }
}

/// The find-effect options selected in the settings.
pub open spec fn find_opts_of(s: Settings) -> FindOpts {
    FindOpts { magnify: s.cursor_find_magnify, ripple: s.cursor_find_ripple, arrows: s.cursor_find_arrows }
}

/// The core after recording the keep-awake state `on`.
pub open spec fn with_awake(v: CoreView, on: bool) -> CoreView {
    CoreView { awake_on: on, ..v }
}

/// The core after replacing its settings.
pub open spec fn with_settings(v: CoreView, s: Settings) -> CoreView {
    CoreView { settings: s, ..v }
}

/// The core after switching keep-awake: setting and live state follow `on`.
pub open spec fn with_awake_flag(v: CoreView, on: bool) -> CoreView {
    CoreView { settings: Settings { awake_enabled: on, ..v.settings }, awake_on: on, ..v }
}

/// The core after switching auto-blackout.
pub open spec fn with_auto_flag(v: CoreView, on: bool) -> CoreView {
    CoreView { settings: Settings { auto_blackout_enabled: on, ..v.settings }, ..v }
}

/// The core with the blackout showing (`on`) or not.
pub open spec fn with_blackout(v: CoreView, on: bool) -> CoreView {
    CoreView { overlay: OverlayManager { alive: on, ..v.overlay }, ..v }
}

impl Core {
    /// The core at process start, from the loaded settings: keep-awake
    /// follows the persisted switch, no blackout, no workers yet.
    pub fn new(settings: Settings, version: String) -> (c: Core)
        ensures
            c@.settings == settings,
            c@.awake_on == settings.awake_enabled,
            !c@.overlay.alive,
            c@.overlay.thread_id is None,
            !c@.workers_started,
            c@.version == version@,
            c@.watchers.len() == 0,
            c@.next_watcher == 0,
    {
        let awake = settings.awake_enabled;
        Core {
            settings,
            awake_on: awake,
            overlay: OverlayManager::new(),
            workers_started: false,
            version,
            watchers: Vec::new(),
            next_watcher: 0,
        }
    }

    /// Register a new status watcher; returns its id.
    pub fn add_watcher(&mut self) -> (id: u64)
        requires
            old(self)@.next_watcher < u64::MAX,
        ensures
            id == old(self)@.next_watcher,
            final(self)@ == with_watcher_added(old(self)@),
    {
        let id = self.next_watcher;
        self.watchers.push(id);
        self.next_watcher = id + 1;
        id
    }

    /// The ids of the registered watchers, oldest first: each is pushed the
    /// status on every emit.
    pub fn watcher_ids(&self) -> (r: Vec<u64>)
        ensures
            r@ == self@.watchers,
    {
        let mut r: Vec<u64> = Vec::new();
        let mut i: usize = 0;
        while i < self.watchers.len()
            invariant
                i <= self.watchers@.len(),
                r@ == self.watchers@.take(i as int),
            decreases self.watchers@.len() - i,
        {
            r.push(self.watchers[i]);
            i = i + 1;
            proof {
                assert(r@ =~= self.watchers@.take(i as int));
            }
        }
        proof {
            assert(self.watchers@.take(i as int) =~= self.watchers@);
        }
        r
    }

    /// Drop the watchers `gone` (those whose push failed); the others stay,
    /// in order.
    pub fn drop_watchers(&mut self, gone: &Vec<u64>)
        ensures
            final(self)@ == with_watchers_dropped(old(self)@, gone@),
    {
        let mut kept: Vec<u64> = Vec::new();
        let mut i: usize = 0;
        while i < self.watchers.len()
            invariant
                i <= self.watchers@.len(),
                kept@ == without(self.watchers@.take(i as int), gone@),
            decreases self.watchers@.len() - i,
        {
            let id = self.watchers[i];
            let mut dead = false;
            let mut j: usize = 0;
            while j < gone.len()
                invariant
                    j <= gone@.len(),
                    dead == exists|q: int| 0 <= q < j && gone@[q] == id,
                decreases gone@.len() - j,
            {
                if gone[j] == id {
                    dead = true;
                }
                j = j + 1;
            }
            proof {
                assert(self.watchers@.take(i + 1).drop_last() =~= self.watchers@.take(i as int));
                assert(dead == gone@.contains(id));
            }
            if !dead {
                kept.push(id);
            }
            i = i + 1;
        }
        proof {
            assert(self.watchers@.take(self.watchers@.len() as int) =~= self.watchers@);
        }
        self.watchers = kept;
    }

    /// The status the GUI shows.
    pub fn status(&self) -> (r: Status)
        ensures
            status_fields(r) == status_of(self@),
            r.version@ == self@.version,
    {
        Status {
            awake: self.awake_on,
            blackout: self.overlay.is_showing(),
            auto_blackout: self.settings.auto_blackout_enabled,
            auto_blackout_secs: self.settings.auto_blackout_secs,
            version: self.version.clone(),
        }
    }

    /// The OSD state pushed along with every status.
    pub fn osd_state(&self) -> (r: OsdState)
        ensures
            r == osd_state_of(self@),
    {
        OsdState {
            enabled: self.settings.osd_enabled,
            position: self.settings.osd_position,
            awake: self.awake_on,
            auto_blackout: self.settings.auto_blackout_enabled,
            blackout: self.overlay.is_showing(),
            find: self.settings.cursor_find_enabled,
        }
    }

    /// Record the keep-awake state and request it.
    pub fn apply_awake(&mut self, on: bool) -> (r: CoreAction)
        ensures
            final(self)@ == with_awake(old(self)@, on),
            r == CoreAction::ApplyAwake(on),
    {
        self.awake_on = on;
        CoreAction::ApplyAwake(on)
    }

    /// Replace the settings.
    pub fn update_settings(&mut self, s: Settings)
        ensures
            final(self)@ == with_settings(old(self)@, s),
    {
        self.settings = s;
    }

    /// A copy of the settings.
    pub fn settings_snapshot(&self) -> (r: Settings)
        ensures
            r == self@.settings,
    {
        self.settings
    }

    /// Switch keep-awake: the setting and the live state follow `on`, and
    /// the settings are persisted (a failure is ignored).
    pub fn set_awake_flag(&mut self, on: bool) -> (r: Vec<CoreAction>)
        ensures
            final(self)@ == with_awake_flag(old(self)@, on),
            r@ == seq![
                CoreAction::ApplyAwake(on),
                CoreAction::SaveSettings { settings: final(self)@.settings, report: false },
            ],
    {
        self.settings.awake_enabled = on;
        let a = self.apply_awake(on);
        vec![a, CoreAction::SaveSettings { settings: self.settings, report: false }]
    }

    /// Switch auto-blackout and persist the settings (a failure is ignored).
    pub fn set_auto_flag(&mut self, on: bool) -> (r: Vec<CoreAction>)
        ensures
            final(self)@ == with_auto_flag(old(self)@, on),
            r@ == seq![CoreAction::SaveSettings { settings: final(self)@.settings, report: false }],
    {
        self.settings.auto_blackout_enabled = on;
        vec![CoreAction::SaveSettings { settings: self.settings, report: false }]
    }

    /// Start the blackout. The find effect stops first (the shake goes back
    /// to meaning "unlock"); a window thread starts if none shows yet.
    pub fn overlay_show(&mut self) -> (r: Vec<CoreAction>)
        ensures
            final(self)@ == with_blackout(old(self)@, true),
            r@ == (if old(self)@.overlay.alive {
                seq![CoreAction::CancelFind]
            } else {
                seq![CoreAction::CancelFind, CoreAction::SpawnOverlay]
            }),
    {
        let mut r = vec![CoreAction::CancelFind];
        if self.overlay.show() {
            r.push(CoreAction::SpawnOverlay);
        }
        r
    }

    /// End the blackout (nothing to do when none shows).
    pub fn overlay_hide(&mut self) -> (r: Vec<CoreAction>)
        ensures
            final(self)@ == with_blackout(old(self)@, false),
            r@ == (if old(self)@.overlay.alive {
                seq![CoreAction::CloseOverlay(old(self)@.overlay.thread_id)]
            } else {
                Seq::<CoreAction>::empty()
            }),
    {
        match self.overlay.hide_blackout() {
            HideOutcome::NotShowing => vec![],
            HideOutcome::Close(tid) => vec![CoreAction::CloseOverlay(tid)],
        }
    }

    /// Workers are running from now on; returns whether they must be
    /// started (the first call only).
    pub fn mark_workers_started(&mut self) -> (spawn: bool)
        ensures
            final(self)@ == (CoreView { workers_started: true, ..old(self)@ }),
            spawn == !old(self)@.workers_started,
    {
        let spawn = !self.workers_started;
        self.workers_started = true;
        spawn
    }
}

/// The OSD hides while a blackout shows (the black screens already say
/// "protected"), and its pointer icon follows the find-cursor setting.
pub proof fn law_osd_hides_during_blackout(v: CoreView)
    ensures
        !visible_spec(osd_state_of(with_blackout(v, true))),
        osd_state_of(v).find == v.settings.cursor_find_enabled,
{
}

// --- input routing -------------------------------------------------------------

/// What one raw input event asks of the host.
#[derive(Debug, Clone, Copy, PartialEq, Eq, Structural)]
pub enum RouteAction {
    /// Nothing.
    Ignore,
    /// The unlock gesture was accepted: end the blackout.
    Dismiss,
    /// A find-cursor shake was detected at (x, y) with this amplitude: fire
    /// the effect with these options.
    TriggerFind { x: i32, y: i32, amplitude: i32, opts: FindOpts },
    /// The pointer moved while the find feature is on: track it.
    TrackMove { x: i32, y: i32 },
    /// The find feature is off but its effect still plays: stop it.
    CancelFind,
}

/// The input consumer's state: the unlock detector, whether it is armed
/// for the current blackout, and the find-cursor detector.
#[derive(Debug)]
pub struct InputRouter {
    armed: bool,
    tracker: ShakeTracker,
    find: FindDetector,
}

/// The router's state as values: (armed, unlock tracker, find trail).
pub type RouterView = (bool, (Option<(i32, i32)>, Seq<Sample>), Seq<Sample>);

impl View for InputRouter {
    type V = RouterView;

    closed spec fn view(&self) -> RouterView {
        (self.armed, self.tracker@, self.find@)
    }
}

/// How one event at time `now` moves the router and what it yields.
/// Without a blackout the unlock detector disarms and mouse moves feed the
/// find detector (when the feature is on); during a blackout the first
/// event arms a fresh unlock detector and every event is judged as an
/// unlock gesture.
pub open spec fn route_spec(
    r: RouterView,
    ev: InputEvent,
    showing: bool,
    s: Settings,
    find_showing: bool,
    now: u128,
) -> (RouterView, RouteAction) {
    if !showing {
        let tracker = if r.0 { (None::<(i32, i32)>, Seq::<Sample>::empty()) } else { r.1 };
        match ev {
            InputEvent::Move(x, y) => {
                if s.cursor_find_enabled {
                    let (t, amp) = find_step(r.2, x, y, now);
                    (
                        (false, tracker, t),
                        match amp {
                            Some(a) => RouteAction::TriggerFind { x, y, amplitude: a, opts: find_opts_of(s) },
                            None => RouteAction::TrackMove { x, y },
                        },
                    )
                } else if find_showing {
                    ((false, tracker, r.2), RouteAction::CancelFind)
                } else {
                    ((false, tracker, r.2), RouteAction::Ignore)
                }
            },
            _ => ((false, tracker, r.2), RouteAction::Ignore),
        }
    } else {
        let tracker = if !r.0 { (None::<(i32, i32)>, Seq::<Sample>::empty()) } else { r.1 };
        match ev {
            InputEvent::Key(vk) => (
                (true, tracker, r.2),
                if key_unlocks_spec(s.unlock_key, vk) { RouteAction::Dismiss } else { RouteAction::Ignore },
            ),
            InputEvent::Move(x, y) => {
                let t = shake_step(tracker, x, y, now);
                (
                    (true, t, r.2),
                    if mouse_unlocks(s.unlock_mouse, t.0.unwrap(), t.1, x, y) {
                        RouteAction::Dismiss
                    } else {
                        RouteAction::Ignore
                    },
                )
            },
            InputEvent::Click => (
                (true, tracker, r.2),
                if s.unlock_mouse == UnlockMouse::Click { RouteAction::Dismiss } else { RouteAction::Ignore },
            ),
        }
    }
}

/// A find trigger carries the user's three effect switches as they are
/// in the settings, each on its own (magnifier, ripples, arrows), and only
/// comes with no blackout showing and the find gesture enabled.
pub proof fn law_trigger_find_uses_the_switches(
    r: RouterView,
    ev: InputEvent,
    showing: bool,
    s: Settings,
    find_showing: bool,
    now: u128,
)
    ensures
        route_spec(r, ev, showing, s, find_showing, now).1 matches RouteAction::TriggerFind { opts, .. }
            ==> opts.magnify == s.cursor_find_magnify && opts.ripple == s.cursor_find_ripple
            && opts.arrows == s.cursor_find_arrows,
        route_spec(r, ev, showing, s, find_showing, now).1 is TriggerFind ==> !showing && s.cursor_find_enabled,
{
}

impl InputRouter {
    /// Disarmed, with fresh detectors.
    pub fn new() -> (r: InputRouter)
        ensures
            r@ == (false, (None::<(i32, i32)>, Seq::<Sample>::empty()), Seq::<Sample>::empty()),
    {
        InputRouter { armed: false, tracker: ShakeTracker::new(), find: FindDetector::new() }
    }

    /// Route one event observed at time `now` (ms), given whether the
    /// blackout shows, the current settings, and whether the find effect
    /// plays.
    pub fn route(&mut self, ev: InputEvent, showing: bool, s: &Settings, find_showing: bool, now: u128) -> (a: RouteAction)
        ensures
            (final(self)@, a) == route_spec(old(self)@, ev, showing, *s, find_showing, now),
            a matches RouteAction::TriggerFind { opts, .. } ==> opts.magnify == s.cursor_find_magnify
                && opts.ripple == s.cursor_find_ripple && opts.arrows == s.cursor_find_arrows,
            a is TriggerFind ==> !showing && s.cursor_find_enabled,
    {
        if !showing {
            if self.armed {
                self.armed = false;
                self.tracker.reset();
            }
            match ev {
                InputEvent::Move(x, y) => {
                    if s.cursor_find_enabled {
                        match self.find.feed_at(x, y, now) {
                            Some(amplitude) => RouteAction::TriggerFind {
                                x,
                                y,
                                amplitude,
                                opts: FindOpts {
                                    magnify: s.cursor_find_magnify,
                                    ripple: s.cursor_find_ripple,
                                    arrows: s.cursor_find_arrows,
                                },
                            },
                            None => RouteAction::TrackMove { x, y },
                        }
                    } else if find_showing {
                        RouteAction::CancelFind
                    } else {
                        RouteAction::Ignore
                    }
                },
                _ => RouteAction::Ignore,
            }
        } else {
            if !self.armed {
                self.armed = true;
                self.tracker.reset();
            }
            let dismiss = match ev {
                InputEvent::Key(vk) => key_unlocks(s.unlock_key, vk),
                InputEvent::Move(x, y) => self.tracker.feed_at(s.unlock_mouse, x, y, now),
                InputEvent::Click => s.unlock_mouse == UnlockMouse::Click,
            };
            if dismiss {
                RouteAction::Dismiss
            } else {
                RouteAction::Ignore
            }
        }
    }
}

/// A blackout can only be dismissed while it shows, and the find effect
/// can only fire while none shows: the shake means "unlock" during a
/// blackout and "find my cursor" otherwise.
pub proof fn law_gestures_are_exclusive(
    r: RouterView,
    ev: InputEvent,
    showing: bool,
    s: Settings,
    find_showing: bool,
    now: u128,
)
    ensures
        ({
            let a = route_spec(r, ev, showing, s, find_showing, now).1;
            &&& showing ==> (a == RouteAction::Dismiss || a == RouteAction::Ignore)
            &&& !showing ==> a != RouteAction::Dismiss
        }),
{
}

/// During a blackout a key press dismisses it exactly when the keyboard
/// unlock setting accepts that key, and a click exactly when the mouse
/// unlock setting is "click".
pub proof fn law_key_and_click_unlock(r: RouterView, vk: u32, s: Settings, find_showing: bool, now: u128)
    ensures
        (route_spec(r, InputEvent::Key(vk), true, s, find_showing, now).1 == RouteAction::Dismiss)
            == key_unlocks_spec(s.unlock_key, vk),
        (route_spec(r, InputEvent::Click, true, s, find_showing, now).1 == RouteAction::Dismiss) == (s.unlock_mouse
            == UnlockMouse::Click),
{
}

/// The first pointer sample of a blackout becomes the anchor of the "move"
/// unlock, so it never dismisses the blackout by itself.
pub proof fn law_first_move_anchors(r: RouterView, x: i32, y: i32, s: Settings, find_showing: bool, now: u128)
    requires
        !r.0,
        s.unlock_mouse == UnlockMouse::Move,
    ensures
        route_spec(r, InputEvent::Move(x, y), true, s, find_showing, now).1 == RouteAction::Ignore,
{
    let t = shake_step((None::<(i32, i32)>, Seq::<Sample>::empty()), x, y, now);
    assert(t.0 == Some((x, y)));
    assert((x - x) * (x - x) + (y - y) * (y - y) == 0) by (nonlinear_arith);
    assert(!crate::unlock::moved_away((x, y), x, y));
}

// --- idle watcher ----------------------------------------------------------------

/// No auto blackout within this many seconds after start-up.
pub const GRACE_SECS: u64 = 60;

/// Auto blackout is due: past the start-up grace, the feature is on with a
/// non-zero timeout, no blackout shows, and the session has been idle at
/// least the timeout.
pub open spec fn auto_blackout_due_spec(uptime_ms: u64, s: Settings, showing: bool, idle_ms: u64) -> bool {
    let threshold = if s.auto_blackout_secs * 1000 > u64::MAX {
        u64::MAX as int
    } else {
        s.auto_blackout_secs * 1000
    };
    uptime_ms >= GRACE_SECS * 1000 && s.auto_blackout_enabled && threshold > 0 && !showing && idle_ms >= threshold
}

/// The idle watcher's decision on one tick: `uptime_ms` since start-up,
/// the settings, whether a blackout shows, and the session idle time.
pub fn auto_blackout_due(uptime_ms: u64, s: &Settings, showing: bool, idle_ms: u64) -> (r: bool)
    ensures
        r == auto_blackout_due_spec(uptime_ms, *s, showing, idle_ms),
{
    if uptime_ms < GRACE_SECS * 1000 {
        return false;
    }
    let threshold_ms: u64 = if s.auto_blackout_secs > u64::MAX / 1000 {
        u64::MAX
    } else {
        s.auto_blackout_secs * 1000
    };
    s.auto_blackout_enabled && threshold_ms > 0 && !showing && idle_ms >= threshold_ms
}

/// Auto blackout never fires during the start-up grace, with the feature
/// off, or while a blackout already shows; and it fires only once the
/// session has been idle for the configured seconds.
pub proof fn law_auto_blackout_guards(uptime_ms: u64, s: Settings, showing: bool, idle_ms: u64)
    ensures
        uptime_ms < GRACE_SECS * 1000 ==> !auto_blackout_due_spec(uptime_ms, s, showing, idle_ms),
        !s.auto_blackout_enabled ==> !auto_blackout_due_spec(uptime_ms, s, showing, idle_ms),
        showing ==> !auto_blackout_due_spec(uptime_ms, s, showing, idle_ms),
        auto_blackout_due_spec(uptime_ms, s, showing, idle_ms) ==> idle_ms >= s.auto_blackout_secs * 1000
            || idle_ms == u64::MAX,
{
}

} // verus!
