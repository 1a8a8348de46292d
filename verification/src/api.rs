//! The operations the GUI calls, over the process core. Each one updates
//! the core and returns the outside work for the host to perform in order
//! (see [`CoreAction`]).

use vstd::prelude::*;
use crate::manager::{
    status_fields, status_of, watchers_wf, with_awake, with_awake_flag, with_auto_flag, with_blackout,
    with_settings, with_watcher_added, with_watchers_dropped, Core, CoreAction, CoreView, Status,
};
use crate::overlay::{lemma_without_contains, lemma_without_increasing};
use crate::settings::Settings;

verus! {

/// The core after start-up: workers are running.
pub open spec fn after_init(v: CoreView) -> CoreView {
    CoreView { workers_started: true, ..v }
}

/// One-time start-up: assert the persisted keep-awake state, push the
/// status once (so the OSD reflects the settings immediately), and start
/// the workers. Later calls repeat the first two steps but never start the
/// workers again.
pub fn init_core(c: &mut Core) -> (r: Vec<CoreAction>)
    ensures
        final(c)@ == after_init(old(c)@),
        r@ == (if old(c)@.workers_started {
            seq![CoreAction::ApplyAwake(old(c)@.awake_on), CoreAction::Emit]
        } else {
            seq![CoreAction::ApplyAwake(old(c)@.awake_on), CoreAction::Emit, CoreAction::SpawnWorkers]
        }),
{
    let awake = c.awake_on;
    let a = c.apply_awake(awake);
    let mut r = vec![a, CoreAction::Emit];
    if c.mark_workers_started() {
        r.push(CoreAction::SpawnWorkers);
    }
    r
}

/// Subscribe to status changes. The new watcher is registered under a
/// fresh id, so every later emit pushes it the status until a push to it
/// fails; the status to push to it now is returned with the id.
pub fn watch_events(c: &mut Core) -> (r: (u64, Status))
    requires
        old(c)@.next_watcher < u64::MAX,
    ensures
        r.0 == old(c)@.next_watcher,
        final(c)@ == with_watcher_added(old(c)@),
        status_fields(r.1) == status_of(old(c)@),
        r.1.version@ == old(c)@.version,
{
    let st = c.status();
    let id = c.add_watcher();
    (id, st)
}

/// Registering a watcher and dropping watchers whose push failed both keep
/// the watcher list well formed: ids strictly increase and were handed out.
pub proof fn law_watchers_stay_well_formed(v: CoreView, gone: Seq<u64>)
    requires
        watchers_wf(v),
        v.next_watcher < u64::MAX,
    ensures
        watchers_wf(with_watcher_added(v)),
        watchers_wf(with_watchers_dropped(v, gone)),
{
    lemma_without_increasing(v.watchers, gone);
    let d = with_watchers_dropped(v, gone);
    assert forall|i: int| 0 <= i < d.watchers.len() implies d.watchers[i] < d.next_watcher by {
        assert(v.watchers.contains(d.watchers[i]));
    }
}

/// A new watcher gets an id no registered watcher holds, and it stays
/// registered through a drop exactly when its push did not fail.
pub proof fn law_watcher_kept_until_push_fails(v: CoreView, gone: Seq<u64>)
    requires
        watchers_wf(v),
        v.next_watcher < u64::MAX,
    ensures
        !v.watchers.contains(v.next_watcher),
        with_watcher_added(v).watchers.contains(v.next_watcher),
        with_watchers_dropped(with_watcher_added(v), gone).watchers.contains(v.next_watcher)
            <==> !gone.contains(v.next_watcher),
{
    let a = with_watcher_added(v);
    assert(a.watchers[v.watchers.len() as int] == v.next_watcher);
    lemma_without_contains(a.watchers, gone, v.next_watcher);
}

/// The current status.
pub fn get_status(c: &Core) -> (r: Status)
    ensures
        status_fields(r) == status_of(c@),
        r.version@ == c@.version,
{
    c.status()
}

/// The current settings.
pub fn get_settings(c: &Core) -> (r: Settings)
    ensures
        r == c@.settings,
{
    c.settings_snapshot()
}

/// The core after saving settings `s`: they replace the settings and the
/// keep-awake state follows their switch.
pub open spec fn after_save(v: CoreView, s: Settings) -> CoreView {
    with_awake(with_settings(v, s), s.awake_enabled)
}

/// Adopt new settings: keep-awake follows them, they are persisted (a
/// failure is reported to the caller, which then skips the status push),
/// and the status is pushed.
pub fn save_settings(c: &mut Core, s: Settings) -> (r: Vec<CoreAction>)
    ensures
        final(c)@ == after_save(old(c)@, s),
        r@ == seq![
            CoreAction::ApplyAwake(s.awake_enabled),
            CoreAction::SaveSettings { settings: s, report: true },
            CoreAction::Emit,
        ],
{
    let awake = s.awake_enabled;
    c.update_settings(s);
    let a = c.apply_awake(awake);
    vec![a, CoreAction::SaveSettings { settings: s, report: true }, CoreAction::Emit]
}

/// Switch keep-awake (setting and live state), persist quietly, push the
/// status.
pub fn set_awake(c: &mut Core, on: bool) -> (r: Vec<CoreAction>)
    ensures
        final(c)@ == with_awake_flag(old(c)@, on),
        r@ == seq![
            CoreAction::ApplyAwake(on),
            CoreAction::SaveSettings { settings: final(c)@.settings, report: false },
            CoreAction::Emit,
        ],
{
    let mut r = c.set_awake_flag(on);
    r.push(CoreAction::Emit);
    r
}

/// Switch auto-blackout, persist quietly, push the status.
pub fn set_auto_blackout(c: &mut Core, on: bool) -> (r: Vec<CoreAction>)
    ensures
        final(c)@ == with_auto_flag(old(c)@, on),
        r@ == seq![CoreAction::SaveSettings { settings: final(c)@.settings, report: false }, CoreAction::Emit],
{
    let mut r = c.set_auto_flag(on);
    r.push(CoreAction::Emit);
    r
}

/// Black out the screens now (stopping the find effect), push the status.
pub fn blackout_now(c: &mut Core) -> (r: Vec<CoreAction>)
    ensures
        final(c)@ == with_blackout(old(c)@, true),
        r@ == (if old(c)@.overlay.alive {
            seq![CoreAction::CancelFind, CoreAction::Emit]
        } else {
            seq![CoreAction::CancelFind, CoreAction::SpawnOverlay, CoreAction::Emit]
        }),
{
    let mut r = c.overlay_show();
    r.push(CoreAction::Emit);
    r
}

/// End the blackout, push the status.
pub fn clear_blackout(c: &mut Core) -> (r: Vec<CoreAction>)
    ensures
        final(c)@ == with_blackout(old(c)@, false),
        r@ == (if old(c)@.overlay.alive {
            seq![CoreAction::CloseOverlay(old(c)@.overlay.thread_id), CoreAction::Emit]
        } else {
            seq![CoreAction::Emit]
        }),
{
    let mut r = c.overlay_hide();
    r.push(CoreAction::Emit);
    r
}

/// Before process exit: release the keep-awake state.
pub fn prepare_quit() -> (r: Vec<CoreAction>)
    ensures
        r@ == seq![CoreAction::ApplyAwake(false)],
{
    vec![CoreAction::ApplyAwake(false)]
}

/// The settings read back after saving `s` are `s`, and the status then
/// shows keep-awake exactly as `s` asks.
pub proof fn law_save_then_read(v: CoreView, s: Settings)
    ensures
        after_save(v, s).settings == s,
        status_of(after_save(v, s)).0 == s.awake_enabled,
        status_of(after_save(v, s)).2 == s.auto_blackout_enabled,
        status_of(after_save(v, s)).3 == s.auto_blackout_secs,
{
}

/// A keep-awake switch is reflected by both the settings and the status;
/// an auto-blackout switch by both as well, leaving keep-awake alone.
pub proof fn law_switches_are_reflected(v: CoreView, on: bool)
    ensures
        with_awake_flag(v, on).settings.awake_enabled == on,
        status_of(with_awake_flag(v, on)).0 == on,
        with_auto_flag(v, on).settings.auto_blackout_enabled == on,
        status_of(with_auto_flag(v, on)).2 == on,
        status_of(with_auto_flag(v, on)).0 == v.awake_on,
{
}

/// Blacking out then clearing leaves no blackout, and the status reports
/// each step; clearing never touches keep-awake or the settings.
pub proof fn law_blackout_round_trip(v: CoreView)
    ensures
        status_of(with_blackout(v, true)).1,
        !status_of(with_blackout(with_blackout(v, true), false)).1,
        with_blackout(with_blackout(v, true), false).settings == v.settings,
        with_blackout(with_blackout(v, true), false).awake_on == v.awake_on,
{
}

/// Start-up is idempotent: after the first `init_core` the workers are
/// marked running, so a second call cannot start them again.
pub proof fn law_workers_start_once(v: CoreView)
    ensures
        after_init(v).workers_started,
        after_init(after_init(v)) == after_init(v),
{
}

} // verus!
