use caffeine_core::cursor_find::{
    abandon, advance_rings, arrow_origin, cancel, center_delta, cursor_monitor, cursor_swap, frame_step,
    is_showing, notify_move, plan_arrows, spot_origin, FindController, FindDetector, FindOpts, FindStep,
    HOLD_MS,
};
use caffeine_core::cursor_find::{sleep_ms, FrameTimers, FRAME_MS, POLL_MS, RECONCILE_MS};
use caffeine_core::win32::MonitorRect;

/// Deliberate side-to-side shake: `width`-px strokes, alternating.
fn shake_path(width: i32, strokes: u32) -> Vec<(i32, i32)> {
    let mut pts = Vec::new();
    let mut x = 500;
    let mut dir = 1;
    for _ in 0..strokes {
        for _ in 0..3 {
            x += dir * (width / 3).max(1);
            pts.push((x, 500));
        }
        dir = -dir;
    }
    pts
}

#[test]
fn shake_triggers_with_amplitude() {
    let mut d = FindDetector::new();
    let mut amp = None;
    for &(x, y) in &shake_path(70, 8) {
        if let Some(a) = d.feed(x, y) {
            amp = Some(a);
            break;
        }
    }
    let amp = amp.expect("a real shake must trigger");
    assert!(amp >= 60, "amplitude {amp} should reflect the stroke width");
}

#[test]
fn amplitude_tracks_stroke_width() {
    let measure = |width: i32| {
        let mut d = FindDetector::new();
        let mut a = 0;
        for &(x, y) in &shake_path(width, 8) {
            if let Some(v) = d.feed(x, y) {
                a = v;
            }
        }
        a
    };
    let narrow = measure(30);
    let wide = measure(200);
    assert!(wide > narrow, "wider shakes must read as stronger");
    assert!(wide >= 180, "a 200px stroke spans ~200px peak-to-peak");
}

#[test]
fn straight_drift_and_slow_meander_do_not_trigger() {
    let mut d = FindDetector::new();
    for i in 0..60 {
        assert!(d.feed(i * 30, 500).is_none(), "straight drag");
    }

    let mut d = FindDetector::new();
    let mut x = 400;
    for _ in 0..40 {
        x += 8;
        assert!(d.feed(x, 500).is_none(), "tiny jitters");
        x -= 8;
        assert!(d.feed(x, 500).is_none(), "tiny jitters");
    }

    let mut d = FindDetector::new();
    for &(x, y) in &shake_path(90, 2) {
        assert!(d.feed(x, y).is_none(), "too few reversals");
    }
}

#[test]
fn vertical_movement_does_not_trigger() {
    let mut d = FindDetector::new();
    let mut y = 300;
    let mut dir = 1;
    for _ in 0..10 {
        for _ in 0..4 {
            y += dir * 40;
            assert!(d.feed(600, y).is_none(), "vertical shake is not a find gesture");
        }
        dir = -dir;
    }
}

#[test]
fn detection_reports_full_window_extent_and_restarts() {
    let mut d = FindDetector::new();
    // Strokes of 100 px; the extent spans every sample, the first (x = 0) included.
    let xs = [0, 300, 200, 300, 200, 300];
    let mut out = Vec::new();
    for (i, &x) in xs.iter().enumerate() {
        out.push(d.feed_at(x, 0, 1_000 + i as u128));
    }
    assert_eq!(out, vec![None, None, None, None, Some(300), None]);
}

#[test]
fn amplitude_is_peak_to_peak_of_the_whole_window() {
    let mut d = FindDetector::new();
    let pts = [(-50, 0), (0, 0), (100, 0), (0, 0), (100, 0), (0, 0)];
    let mut out = Vec::new();
    for (i, &(x, y)) in pts.iter().enumerate() {
        out.push(d.feed_at(x, y, 1_000 + i as u128));
    }
    assert_eq!(out, vec![None, None, None, None, None, Some(150)]);
}

#[test]
fn old_samples_leave_the_find_window() {
    let mut d = FindDetector::new();
    let xs = [500, 600, 500, 600, 500];
    let mut last = None;
    for (i, &x) in xs.iter().enumerate() {
        last = d.feed_at(x, 0, 1_000 + 300 * i as u128);
    }
    assert_eq!(last, None, "strokes spread over more than 550 ms do not count");
}

#[test]
fn trigger_cancel_and_frames() {
    let mut c = FindController::new();
    assert!(!is_showing(&c));
    assert_eq!(frame_step(&mut c, false, 0), FindStep::Park);
    let opts = FindOpts { magnify: true, ripple: false, arrows: true };
    assert!(caffeine_core::cursor_find::trigger(&mut c, 10, 20, opts, 1_000), "first trigger starts the thread");
    assert!(is_showing(&c));
    assert_eq!(c.deadline, 1_000 + HOLD_MS);
    assert_eq!((c.cursor_x, c.cursor_y), (10, 20));
    assert_eq!(c.opts, opts);
    assert_eq!(frame_step(&mut c, false, 1_016), FindStep::Start);
    assert_eq!(frame_step(&mut c, true, 1_024), FindStep::Render);
    assert!(!caffeine_core::cursor_find::trigger(&mut c, 30, 40, FindOpts::default(), 1_100), "thread already running");
    assert_eq!(c.deadline, 1_100 + HOLD_MS);
    notify_move(&mut c, 7, 8);
    assert_eq!((c.cursor_x, c.cursor_y), (7, 8));
    cancel(&mut c, 1_200);
    assert_eq!(frame_step(&mut c, true, 1_200), FindStep::Stop);
    assert!(!is_showing(&c));
    assert_eq!(frame_step(&mut c, false, 1_216), FindStep::Park);
    caffeine_core::cursor_find::trigger(&mut c, 0, 0, FindOpts::default(), 2_000);
    abandon(&mut c);
    assert!(!is_showing(&c));
}

#[test]
fn ripples_spawn_and_expire() {
    let mut rings: Vec<u64> = Vec::new();
    let mut next: u64 = 1_000;
    // Deadline 1600 ms after the trigger at 1000.
    advance_rings(&mut rings, &mut next, 1_000, 2_600);
    assert_eq!(rings, vec![1_000]);
    assert_eq!(next, 1_420);
    advance_rings(&mut rings, &mut next, 1_900, 2_600);
    assert_eq!(rings, vec![1_420, 1_840]);
    assert_eq!(next, 2_260);
    advance_rings(&mut rings, &mut next, 2_400, 2_600);
    assert_eq!(rings, vec![1_840, 2_260]);
    assert_eq!(next, 2_680);
    // Too close to the end: no new ripple is born.
    advance_rings(&mut rings, &mut next, 2_700, 2_600);
    assert_eq!(rings, vec![1_840, 2_260]);
    assert_eq!(next, 2_680);
}

#[test]
fn frame_geometry_helpers() {
    assert_eq!(spot_origin(1000, 500), Some((660, 160)));
    assert_eq!(spot_origin(i32::MIN + 339, 0), None);
    let m = MonitorRect { x: 1920, y: 0, w: 2560, h: 1440, primary: false };
    assert_eq!(arrow_origin(&m, 400), Some((1920 + 1080, 520)));
    assert_eq!(arrow_origin(&m, 2561), Some((1920, -560)), "odd negative slack rounds toward zero");
    let left = MonitorRect { x: 0, y: 0, w: 1920, h: 1080, primary: true };
    assert_eq!(center_delta(&m, &left), Some((960 - 3200, 540 - 720)));
    let far = MonitorRect { x: i32::MAX - 5, y: 0, w: 20, h: 10, primary: false };
    assert_eq!(center_delta(&left, &far), None);
    assert_eq!(cursor_swap(true, false), Some(true));
    assert_eq!(cursor_swap(false, true), Some(false));
    assert_eq!(cursor_swap(true, true), None);
}

#[test]
fn cursor_monitor_picks_the_first_holder() {
    let mons = vec![
        MonitorRect { x: 0, y: 0, w: 1920, h: 1080, primary: true },
        MonitorRect { x: 1920, y: 0, w: 1920, h: 1080, primary: false },
    ];
    assert_eq!(cursor_monitor(&mons, 100, 100), 0);
    assert_eq!(cursor_monitor(&mons, 1920, 0), 1, "left edge belongs to the monitor");
    assert_eq!(cursor_monitor(&mons, 3840, 0), 0, "outside every monitor falls back to 0");
}

#[test]
fn arrow_windows_follow_the_topology() {
    // Three monitors, cursor on 1, an arrow already on 0 and a stale one on 5.
    let (keep, create) = plan_arrows(&vec![0, 5], 3, 1, true);
    assert_eq!(keep, vec![true, false]);
    assert_eq!(create, vec![2]);
    // Arrows switched off: everything goes.
    let (keep, create) = plan_arrows(&vec![0, 2], 3, 1, false);
    assert_eq!(keep, vec![false, false]);
    assert!(create.is_empty());
    // A single monitor needs no arrows.
    let (keep, create) = plan_arrows(&vec![0], 1, 0, true);
    assert_eq!(keep, vec![false]);
    assert!(create.is_empty());
    // No monitor reported: nothing changes.
    let (keep, create) = plan_arrows(&vec![0, 1], 0, 0, true);
    assert_eq!(keep, vec![true, true]);
    assert!(create.is_empty());
}

#[test]
fn render_thread_schedule() {
    assert_eq!(sleep_ms(false), POLL_MS);
    assert_eq!(sleep_ms(true), FRAME_MS);
    let mut t = FrameTimers::start(1_000);
    assert_eq!(t.tick(1_000), (false, true));
    assert_eq!(t.tick(1_004), (false, false));
    assert_eq!(t.tick(1_008), (false, true));
    assert_eq!(t.tick(1_000 + RECONCILE_MS), (true, true));
    assert_eq!(t.next_reconcile, 1_000 + 2 * RECONCILE_MS);
}
