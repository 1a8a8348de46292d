use caffeine_core::api::{
    blackout_now, clear_blackout, get_settings, get_status, init_core, prepare_quit, save_settings, set_auto_blackout,
    set_awake, watch_events,
};
use caffeine_core::cursor_find::FindOpts;
use caffeine_core::manager::{auto_blackout_due, Core, CoreAction, InputRouter, RouteAction};
use caffeine_core::settings::{OsdPosition, Settings, UnlockKey, UnlockMouse};
use caffeine_core::unlock::{InputEvent, VK_ESCAPE, VK_SPACE};

fn fresh() -> Core {
    Core::new(Settings::default(), "0.3.1".to_string())
}

#[test]
fn start_up_applies_awake_and_spawns_workers_once() {
    let mut c = fresh();
    assert_eq!(
        init_core(&mut c),
        vec![CoreAction::ApplyAwake(true), CoreAction::Emit, CoreAction::SpawnWorkers]
    );
    assert_eq!(init_core(&mut c), vec![CoreAction::ApplyAwake(true), CoreAction::Emit]);
}

#[test]
fn status_reflects_the_core() {
    let mut c = fresh();
    let st = get_status(&c);
    assert!(st.awake);
    assert!(!st.blackout);
    assert!(st.auto_blackout);
    assert_eq!(st.auto_blackout_secs, 300);
    assert_eq!(st.version, "0.3.1");
    let (id, w) = watch_events(&mut c);
    assert_eq!(id, 0);
    assert_eq!(w.version, st.version);
    assert_eq!(w.awake, st.awake);
    assert_eq!(c.watcher_ids(), vec![0]);
    let osd = c.osd_state();
    assert!(osd.enabled && osd.awake && osd.auto_blackout && osd.find && !osd.blackout);
    assert_eq!(osd.position, OsdPosition::TopRight);
}

#[test]
fn save_then_read_back() {
    let mut c = fresh();
    let s = Settings {
        awake_enabled: false,
        auto_blackout_secs: 120,
        unlock_key: UnlockKey::Space,
        unlock_mouse: UnlockMouse::Click,
        ..Settings::default()
    };
    let actions = save_settings(&mut c, s);
    assert_eq!(
        actions,
        vec![
            CoreAction::ApplyAwake(false),
            CoreAction::SaveSettings { settings: s, report: true },
            CoreAction::Emit,
        ]
    );
    assert_eq!(get_settings(&c), s);
    assert!(!get_status(&c).awake);
    assert_eq!(get_status(&c).auto_blackout_secs, 120);
}

#[test]
fn switches_persist_quietly() {
    let mut c = fresh();
    let a = set_awake(&mut c, false);
    let saved = Settings { awake_enabled: false, ..Settings::default() };
    assert_eq!(
        a,
        vec![
            CoreAction::ApplyAwake(false),
            CoreAction::SaveSettings { settings: saved, report: false },
            CoreAction::Emit,
        ]
    );
    assert!(!get_status(&c).awake);
    let b = set_auto_blackout(&mut c, false);
    let saved = Settings { auto_blackout_enabled: false, ..saved };
    assert_eq!(b, vec![CoreAction::SaveSettings { settings: saved, report: false }, CoreAction::Emit]);
    assert!(!get_status(&c).auto_blackout);
    assert_eq!(prepare_quit(), vec![CoreAction::ApplyAwake(false)]);
}

#[test]
fn blackout_round_trip() {
    let mut c = fresh();
    assert_eq!(
        blackout_now(&mut c),
        vec![CoreAction::CancelFind, CoreAction::SpawnOverlay, CoreAction::Emit]
    );
    assert!(get_status(&c).blackout);
    assert_eq!(blackout_now(&mut c), vec![CoreAction::CancelFind, CoreAction::Emit], "already showing");
    assert!(c.overlay.register_thread(42));
    assert_eq!(clear_blackout(&mut c), vec![CoreAction::CloseOverlay(Some(42)), CoreAction::Emit]);
    assert!(!get_status(&c).blackout);
    assert_eq!(clear_blackout(&mut c), vec![CoreAction::Emit], "nothing to close");
}

#[test]
fn blackout_routes_gestures_to_unlock() {
    let mut r = InputRouter::new();
    let s = Settings { unlock_key: UnlockKey::Esc, unlock_mouse: UnlockMouse::Move, ..Settings::default() };
    assert_eq!(r.route(InputEvent::Key(VK_SPACE), true, &s, false, 1), RouteAction::Ignore);
    assert_eq!(r.route(InputEvent::Key(VK_ESCAPE), true, &s, false, 2), RouteAction::Dismiss);
    assert_eq!(r.route(InputEvent::Move(100, 100), true, &s, false, 3), RouteAction::Ignore);
    assert_eq!(r.route(InputEvent::Move(200, 100), true, &s, false, 4), RouteAction::Dismiss);
    assert_eq!(r.route(InputEvent::Click, true, &s, false, 5), RouteAction::Ignore);
    let click = Settings { unlock_mouse: UnlockMouse::Click, ..s };
    assert_eq!(r.route(InputEvent::Click, true, &click, false, 6), RouteAction::Dismiss);
}

#[test]
fn a_new_blackout_gets_a_new_anchor() {
    let mut r = InputRouter::new();
    let s = Settings { unlock_mouse: UnlockMouse::Move, ..Settings::default() };
    assert_eq!(r.route(InputEvent::Move(0, 0), true, &s, false, 1), RouteAction::Ignore);
    // The blackout ends; the next one anchors where the pointer then is.
    r.route(InputEvent::Key(1), false, &s, false, 2);
    assert_eq!(r.route(InputEvent::Move(500, 500), true, &s, false, 3), RouteAction::Ignore);
    assert_eq!(r.route(InputEvent::Move(505, 505), true, &s, false, 4), RouteAction::Ignore);
}

#[test]
fn without_blackout_a_shake_finds_the_cursor() {
    let mut r = InputRouter::new();
    let s = Settings { cursor_find_arrows: false, ..Settings::default() };
    let xs = [0, 300, 200, 300, 200];
    let mut last = RouteAction::Ignore;
    for (i, &x) in xs.iter().enumerate() {
        last = r.route(InputEvent::Move(x, 7), false, &s, false, 100 + i as u128);
        if i < 4 {
            assert_eq!(last, RouteAction::TrackMove { x, y: 7 });
        }
    }
    assert_eq!(
        last,
        RouteAction::TriggerFind {
            x: 200,
            y: 7,
            amplitude: 300,
            opts: FindOpts { magnify: true, ripple: true, arrows: false },
        }
    );
    assert_eq!(r.route(InputEvent::Key(VK_ESCAPE), false, &s, false, 200), RouteAction::Ignore);
    let off = Settings { cursor_find_enabled: false, ..s };
    assert_eq!(r.route(InputEvent::Move(1, 1), false, &off, true, 300), RouteAction::CancelFind);
    assert_eq!(r.route(InputEvent::Move(1, 1), false, &off, false, 301), RouteAction::Ignore);
}

#[test]
fn idle_watcher_rules() {
    let s = Settings::default();
    assert!(!auto_blackout_due(59_999, &s, false, 1_000_000), "start-up grace");
    assert!(auto_blackout_due(60_000, &s, false, 300_000));
    assert!(!auto_blackout_due(60_000, &s, false, 299_999));
    assert!(!auto_blackout_due(60_000, &s, true, 300_000), "already black");
    let off = Settings { auto_blackout_enabled: false, ..s };
    assert!(!auto_blackout_due(60_000, &off, false, u64::MAX));
    let zero = Settings { auto_blackout_secs: 0, ..s };
    assert!(!auto_blackout_due(60_000, &zero, false, u64::MAX), "zero timeout disables");
    let huge = Settings { auto_blackout_secs: u64::MAX, ..s };
    assert!(auto_blackout_due(60_000, &huge, false, u64::MAX), "saturated threshold");
}

#[test]
fn osd_hides_while_blacked_out() {
    let mut c = fresh();
    assert!(c.osd_state().visible());
    blackout_now(&mut c);
    assert!(!c.osd_state().visible());
    clear_blackout(&mut c);
    assert!(c.osd_state().visible());
    let no_find = Settings { cursor_find_enabled: false, ..Settings::default() };
    save_settings(&mut c, no_find);
    assert!(!c.osd_state().find);
}

#[test]
fn watchers_get_fresh_ids_and_leave_only_when_their_push_fails() {
    let mut c = fresh();
    assert!(c.watcher_ids().is_empty());
    let ids: Vec<u64> = (0..3).map(|_| watch_events(&mut c).0).collect();
    assert_eq!(ids, vec![0, 1, 2]);
    assert_eq!(c.watcher_ids(), vec![0, 1, 2]);
    c.drop_watchers(&vec![1]);
    assert_eq!(c.watcher_ids(), vec![0, 2]);
    c.drop_watchers(&vec![]);
    assert_eq!(c.watcher_ids(), vec![0, 2]);
    let (next, st) = watch_events(&mut c);
    assert_eq!(next, 3, "a dropped id is never handed out again");
    assert!(st.awake);
    c.drop_watchers(&vec![7, 0, 3]);
    assert_eq!(c.watcher_ids(), vec![2]);
    assert_eq!(c.next_watcher, 4);
}

#[test]
fn watcher_status_follows_later_changes() {
    let mut c = fresh();
    let (_, first) = watch_events(&mut c);
    assert!(first.awake);
    let actions = set_awake(&mut c, false);
    assert_eq!(actions.last(), Some(&CoreAction::Emit));
    assert!(!c.status().awake);
    assert_eq!(c.watcher_ids(), vec![0], "a status change keeps the watchers");
}
