use caffeine_core::osd::{
    finalize_argb, layout, osd_frame, place, place_fits_exec, OsdHub, OsdSignal, OsdState, CROSS_ARM, CROSS_TO_ICON, GAP, ICON,
    MARGIN,
};
use caffeine_core::settings::OsdPosition::{
    BottomCenter, BottomLeft, BottomRight, Center, MiddleLeft, MiddleRight, TopCenter, TopLeft, TopRight,
};
use caffeine_core::win32::MonitorRect;

fn mon_1080p() -> MonitorRect {
    MonitorRect { x: 0, y: 0, w: 1920, h: 1080, primary: true }
}

#[test]
fn horizontal_rows_lay_icons_side_by_side() {
    for pos in [TopLeft, TopCenter, TopRight, BottomLeft, BottomCenter, BottomRight] {
        let l = layout(pos, true, true, true);
        assert_eq!(l.w, 3 * ICON + 2 * GAP, "{pos:?} width");
        assert_eq!(l.h, ICON, "{pos:?} height");
        assert_eq!(l.coffee, Some((0, 0)), "{pos:?} coffee");
        assert_eq!(l.eye, Some((ICON + GAP, 0)), "{pos:?} eye");
        assert_eq!(l.pointer, Some((2 * (ICON + GAP), 0)), "{pos:?} pointer");
        assert_eq!(l.cross, None, "{pos:?} cross");
    }
}

#[test]
fn middle_edges_stack_vertically() {
    for pos in [MiddleLeft, MiddleRight] {
        let l = layout(pos, true, true, true);
        assert_eq!(l.w, ICON, "{pos:?} width");
        assert_eq!(l.h, 3 * ICON + 2 * GAP, "{pos:?} height");
        assert_eq!(l.coffee, Some((0, 0)), "{pos:?} coffee");
        assert_eq!(l.eye, Some((0, ICON + GAP)), "{pos:?} eye");
        assert_eq!(l.pointer, Some((0, 2 * (ICON + GAP))), "{pos:?} pointer");
    }
}

#[test]
fn center_is_crosshair_with_icons_above_and_below() {
    let l = layout(Center, true, true, true);
    assert_eq!(l.w, 2 * CROSS_ARM + 1);
    let top_block = CROSS_TO_ICON + ICON;
    let eye_y = top_block + 2 * CROSS_ARM + 1 + CROSS_TO_ICON;
    let pointer_y = eye_y + ICON + GAP;
    assert_eq!(l.h, pointer_y + ICON);
    assert_eq!(l.cross, Some((l.w / 2, top_block + CROSS_ARM)));
    assert_eq!(l.coffee, Some(((l.w - ICON) / 2, 0)));
    assert_eq!(l.eye, Some(((l.w - ICON) / 2, eye_y)));
    assert_eq!(l.pointer, Some(((l.w - ICON) / 2, pointer_y)));
    // Fewer features keep the same window (stable geometry).
    let one = layout(Center, true, false, false);
    assert_eq!((one.w, one.h), (l.w, l.h));
    assert_eq!(one.eye, None);
    assert_eq!(one.pointer, None);
}

#[test]
fn single_icon_shrinks_span() {
    let l = layout(TopRight, true, false, false);
    assert_eq!((l.w, l.h), (ICON, ICON));
    let find_only = layout(TopRight, false, false, true);
    assert_eq!((find_only.w, find_only.h), (ICON, ICON));
    assert_eq!(find_only.coffee, None);
    assert_eq!(find_only.pointer, Some((0, 0)));
    let none = layout(TopRight, false, false, false);
    assert_eq!((none.w, none.h), (0, 0));
    assert_eq!(none.coffee, None);
    assert_eq!(none.eye, None);
    assert_eq!(none.pointer, None);
}

#[test]
fn nine_positions_anchor_correctly() {
    let m = mon_1080p();
    let (w, h) = (2 * ICON + GAP, ICON);
    assert_eq!(place(&m, TopLeft, w, h), (MARGIN, MARGIN));
    assert_eq!(place(&m, TopCenter, w, h), ((1920 - w) / 2, MARGIN));
    assert_eq!(place(&m, TopRight, w, h), (1920 - MARGIN - w, MARGIN));
    let (vw, vh) = (ICON, 2 * ICON + GAP);
    assert_eq!(place(&m, MiddleLeft, vw, vh), (MARGIN, (1080 - vh) / 2));
    assert_eq!(place(&m, MiddleRight, vw, vh), (1920 - MARGIN - vw, (1080 - vh) / 2));
    assert_eq!(place(&m, BottomCenter, w, h), ((1920 - w) / 2, 1080 - MARGIN - h));
    assert_eq!(place(&m, BottomLeft, w, h), (MARGIN, 1080 - MARGIN - h));
    assert_eq!(place(&m, BottomRight, w, h), (1920 - MARGIN - w, 1080 - MARGIN - h));
    let m2 = MonitorRect { x: 1920, y: 200, w: 2560, h: 1440, primary: false };
    assert_eq!(place(&m2, TopLeft, w, h), (1920 + MARGIN, 200 + MARGIN));
}

#[test]
fn visibility_rules() {
    let base = OsdState {
        enabled: true,
        position: TopRight,
        awake: true,
        auto_blackout: true,
        blackout: false,
        find: false,
    };
    assert!(base.visible());
    assert!(!OsdState { enabled: false, ..base }.visible(), "OSD off");
    assert!(
        !OsdState { awake: false, auto_blackout: false, find: false, ..base }.visible(),
        "no feature on"
    );
    assert!(!OsdState { blackout: true, ..base }.visible(), "during blackout");
    assert!(OsdState { awake: false, ..base }.visible(), "auto only");
    assert!(OsdState { auto_blackout: false, ..base }.visible(), "awake only");
    assert!(
        OsdState { awake: false, auto_blackout: false, find: true, ..base }.visible(),
        "find only"
    );
}

#[test]
fn argb_mask_pass() {
    let mut px: [u32; 3] = [0x00FF_00FF, 0x003D_A3_E8, 0x0020_2020];
    finalize_argb(&mut px);
    assert_eq!(px[0], 0, "sentinel -> transparent");
    assert_eq!(px[1], 0xFF3D_A3_E8, "shape -> opaque");
    assert_eq!(px[2], 0xFF20_2020, "dark colors stay opaque");
}

#[test]
fn mask_pass_ignores_stale_alpha() {
    let mut px: [u32; 2] = [0x7FFF_00FF, 0x1200_0001];
    finalize_argb(&mut px);
    assert_eq!(px, [0, 0xFF00_0001]);
}

#[test]
fn frame_hides_or_places_the_layout() {
    let m = mon_1080p();
    let st = OsdState { enabled: true, position: TopRight, awake: true, auto_blackout: true, blackout: false, find: false };
    let f = osd_frame(&st, &m).expect("visible state has a frame");
    assert_eq!((f.x, f.y), (1920 - MARGIN - 40, MARGIN));
    assert_eq!((f.layout.w, f.layout.h), (40, 16));
    assert!(osd_frame(&OsdState { blackout: true, ..st }, &m).is_none());
}

#[test]
fn hub_coalesces_and_starts_the_thread_once() {
    let mut hub = OsdHub::new();
    let hidden = OsdState::default();
    assert_eq!(hub.update(hidden), OsdSignal::Nothing, "same state");
    let shown = OsdState { enabled: true, awake: true, ..hidden };
    assert_eq!(hub.update(OsdState { enabled: true, ..hidden }), OsdSignal::Nothing, "hidden: no window yet");
    assert_eq!(hub.update(shown), OsdSignal::Spawn);
    assert_eq!(hub.update(hidden), OsdSignal::Nothing, "thread starting, not registered");
    hub.thread_ready(77);
    assert_eq!(hub.update(shown), OsdSignal::Repaint(77));
    assert_eq!(hub.update(shown), OsdSignal::Nothing);
    hub.thread_failed();
    assert_eq!(hub.update(OsdState { find: true, ..shown }), OsdSignal::Spawn);
}

#[test]
fn placement_range_check() {
    let m = mon_1080p();
    assert!(place_fits_exec(&m, 40, 16));
    let edge = MonitorRect { x: i32::MAX - 5, y: 0, w: 100, h: 100, primary: false };
    assert!(!place_fits_exec(&edge, 40, 16));
}

#[test]
fn icons_stay_inside_and_apart() {
    let all = [TopLeft, TopCenter, TopRight, MiddleLeft, Center, MiddleRight, BottomLeft, BottomCenter, BottomRight];
    for pos in all {
        for bits in 0..8 {
            let (a, b, c) = (bits & 1 != 0, bits & 2 != 0, bits & 4 != 0);
            let l = layout(pos, a, b, c);
            let cells: Vec<(i32, i32)> = [l.coffee, l.eye, l.pointer].iter().flatten().copied().collect();
            for &(x, y) in &cells {
                assert!(x >= 0 && x + ICON <= l.w && y >= 0 && y + ICON <= l.h, "{pos:?} {bits}");
            }
            for i in 0..cells.len() {
                for j in (i + 1)..cells.len() {
                    let (p, q) = (cells[i], cells[j]);
                    assert!(
                        p.0 + ICON <= q.0 || q.0 + ICON <= p.0 || p.1 + ICON <= q.1 || q.1 + ICON <= p.1,
                        "{pos:?} {bits}"
                    );
                }
            }
        }
    }
}

#[test]
fn placed_window_stays_on_the_monitor() {
    let m = MonitorRect { x: -1280, y: 100, w: 1280, h: 1024, primary: false };
    let all = [TopLeft, TopCenter, TopRight, MiddleLeft, Center, MiddleRight, BottomLeft, BottomCenter, BottomRight];
    for pos in all {
        let (x, y) = place(&m, pos, 64, 101);
        assert!(x >= m.x && x + 64 <= m.x + m.w, "{pos:?}");
        assert!(y >= m.y && y + 101 <= m.y + m.h, "{pos:?}");
    }
}
