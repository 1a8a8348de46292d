//! Tiny status OSD: which protections are on, as one icon per active
//! feature anchored at one of nine positions on the primary monitor.
//!
//! This module holds the OSD's state, its visibility rule, the icon layout
//! and window placement, the pixel mask pass, and the coalescing of state
//! pushes into repaint requests for the window thread.

use vstd::prelude::*;
use crate::settings::OsdPosition;
use crate::win32::{half, half_i32, MonitorRect};

verus! {

/// One icon cell (16x16).
pub const ICON: i32 = 16;
/// Space between neighbouring icons.
pub const GAP: i32 = 8;
/// Distance from the monitor edge.
pub const MARGIN: i32 = 12;
/// Crosshair half-extent (center position only).
pub const CROSS_ARM: i32 = 15;
/// Half of the crosshair's empty center.
pub const CROSS_GAP: i32 = 7;
/// Space between a crosshair arm tip and the nearest icon.
pub const CROSS_TO_ICON: i32 = 7;
/// Background color treated as fully transparent by the mask pass.
pub const MASK_COLOR: u32 = 0x00FF_00FF;

/// Everything the OSD shows.
#[derive(Debug, Clone, Copy, PartialEq, Eq, Structural)]
pub struct OsdState {
    pub enabled: bool,
    pub position: OsdPosition,
    /// Keep-awake active (coffee icon).
    pub awake: bool,
    /// Auto-blackout toggle on (eye-off icon).
    pub auto_blackout: bool,
    /// Blackout currently covering the screens (the OSD hides).
    pub blackout: bool,
    /// Cursor-find feature enabled (pointer icon).
    pub find: bool,
}

impl Default for OsdState {
    fn default() -> (r: OsdState)
        ensures
            r == (OsdState {
                enabled: false,
                position: OsdPosition::TopRight,
                awake: false,
                auto_blackout: false,
                blackout: false,
                find: false,
            }),
    {
        OsdState {
            enabled: false,
            position: OsdPosition::TopRight,
            awake: false,
            auto_blackout: false,
            blackout: false,
            find: false,
        }
    }
}

/// The OSD shows when enabled, some feature is on, and no blackout covers
/// the screens.
pub open spec fn visible_spec(s: OsdState) -> bool {
    s.enabled && (s.awake || s.auto_blackout || s.find) && !s.blackout
}

impl OsdState {
    /// Whether the OSD window is shown for this state.
    pub fn visible(&self) -> (r: bool)
        ensures
            r == visible_spec(*self),
    {
        self.enabled && (self.awake || self.auto_blackout || self.find) && !self.blackout
    }
}

/// Relative geometry inside the OSD window: its size and the top-left
/// corner of each drawn icon, plus the crosshair center.
#[derive(Debug, Clone, Copy, PartialEq, Eq)]
pub struct Layout {
    pub w: i32,
    pub h: i32,
    pub coffee: Option<(i32, i32)>,
    pub eye: Option<(i32, i32)>,
    pub pointer: Option<(i32, i32)>,
    pub cross: Option<(i32, i32)>,
}

pub open spec fn b2i(b: bool) -> int {
    if b { 1 } else { 0 }
}

/// Positions at the middle of the left or right edge (icons in a column).
pub open spec fn is_column(pos: OsdPosition) -> bool {
    pos == OsdPosition::MiddleLeft || pos == OsdPosition::MiddleRight
}

/// Length of a row/column of `n` icons.
pub open spec fn span(n: int) -> int {
    if n > 0 { n * ICON + (n - 1) * GAP } else { 0 }
}

/// Offset along the row/column of an icon placed after `before` present icons.
pub open spec fn slot(before: int) -> int {
    before * (ICON + GAP)
}

/// Window width of the center crosshair layout.
pub open spec fn center_w() -> int {
    2 * CROSS_ARM + 1
}

/// Top of the eye slot in the center layout.
pub open spec fn center_eye_y() -> int {
    CROSS_TO_ICON + ICON + 2 * CROSS_ARM + 1 + CROSS_TO_ICON
}

/// Top of the pointer slot in the center layout.
pub open spec fn center_pointer_y() -> int {
    center_eye_y() + ICON + GAP
}

/// The icon arrangement for a position and the set of active features.
pub open spec fn layout_spec(pos: OsdPosition, awake: bool, auto: bool, find: bool) -> Layout {
    let n = b2i(awake) + b2i(auto) + b2i(find);
    let coffee_at = slot(0);
    let eye_at = slot(b2i(awake));
    let pointer_at = slot(b2i(awake) + b2i(auto));
    if is_column(pos) {
        Layout {
            w: (if n > 0 { ICON as int } else { 0 }) as i32,
            h: span(n) as i32,
            coffee: if awake { Some((0i32, coffee_at as i32)) } else { None },
            eye: if auto { Some((0i32, eye_at as i32)) } else { None },
            pointer: if find { Some((0i32, pointer_at as i32)) } else { None },
            cross: None,
        }
    } else if pos == OsdPosition::Center {
        let x = half(center_w() - ICON);
        Layout {
            w: center_w() as i32,
            h: (center_pointer_y() + ICON) as i32,
            coffee: if awake { Some((x as i32, 0i32)) } else { None },
            eye: if auto { Some((x as i32, center_eye_y() as i32)) } else { None },
            pointer: if find { Some((x as i32, center_pointer_y() as i32)) } else { None },
            cross: Some((half(center_w()) as i32, (CROSS_TO_ICON + ICON + CROSS_ARM) as i32)),
        }
    } else {
        Layout {
            w: span(n) as i32,
            h: (if n > 0 { ICON as int } else { 0 }) as i32,
            coffee: if awake { Some((coffee_at as i32, 0i32)) } else { None },
            eye: if auto { Some((eye_at as i32, 0i32)) } else { None },
            pointer: if find { Some((pointer_at as i32, 0i32)) } else { None },
            cross: None,
        }
    }
}

/// Icon arrangement for a position. Top/bottom rows run horizontally,
/// middle-left/right stack vertically, center draws a crosshair with the
/// coffee above and eye + pointer below it (all slots reserved, so the
/// window keeps its size when a feature toggles). Elsewhere present icons
/// fill slots in order (coffee, eye, pointer).
pub fn layout(pos: OsdPosition, awake: bool, auto: bool, find: bool) -> (r: Layout)
    ensures
        r == layout_spec(pos, awake, auto, find),
{
    let n: i32 = (if awake { 1i32 } else { 0 }) + (if auto { 1i32 } else { 0 }) + (if find { 1i32 } else { 0 });
    let span_len: i32 = if n > 0 { n * ICON + (n - 1) * GAP } else { 0 };
    let step: i32 = ICON + GAP;
    let mut next: i32 = 0;
    let mut coffee_slot: Option<i32> = None;
    let mut eye_slot: Option<i32> = None;
    let mut pointer_slot: Option<i32> = None;
    if awake {
        coffee_slot = Some(next);
        next = next + step;
    }
    if auto {
        eye_slot = Some(next);
        next = next + step;
    }
    if find {
        pointer_slot = Some(next);
    }
    match pos {
        OsdPosition::MiddleLeft | OsdPosition::MiddleRight => Layout {
            w: if n > 0 { ICON } else { 0 },
            h: span_len,
            coffee: match coffee_slot { Some(s) => Some((0, s)), None => None },
            eye: match eye_slot { Some(s) => Some((0, s)), None => None },
            pointer: match pointer_slot { Some(s) => Some((0, s)), None => None },
            cross: None,
        },
        OsdPosition::Center => {
            let w: i32 = 2 * CROSS_ARM + 1;
            let top_block: i32 = CROSS_TO_ICON + ICON;
            let eye_y: i32 = top_block + 2 * CROSS_ARM + 1 + CROSS_TO_ICON;
            let pointer_y: i32 = eye_y + ICON + GAP;
            let h: i32 = pointer_y + ICON;
            let x: i32 = (w - ICON) / 2;
            Layout {
                w,
                h,
                coffee: if awake { Some((x, 0)) } else { None },
                eye: if auto { Some((x, eye_y)) } else { None },
                pointer: if find { Some((x, pointer_y)) } else { None },
                cross: Some((w / 2, top_block + CROSS_ARM)),
            }
        },
        _ => Layout {
            w: span_len,
            h: if n > 0 { ICON } else { 0 },
            coffee: match coffee_slot { Some(s) => Some((s, 0)), None => None },
            eye: match eye_slot { Some(s) => Some((s, 0)), None => None },
            pointer: match pointer_slot { Some(s) => Some((s, 0)), None => None },
            cross: None,
        },
    }
}

/// Window x for a layout of width `w` at `pos` on `mon`.
pub open spec fn place_x(mon: MonitorRect, pos: OsdPosition, w: int) -> int {
    if pos == OsdPosition::TopLeft || pos == OsdPosition::MiddleLeft || pos == OsdPosition::BottomLeft {
        mon.x + MARGIN
    } else if pos == OsdPosition::TopCenter || pos == OsdPosition::Center || pos == OsdPosition::BottomCenter {
        mon.x + half(mon.w - w)
    } else {
        mon.x + mon.w - MARGIN - w
    }
}

/// Window y for a layout of height `h` at `pos` on `mon`.
pub open spec fn place_y(mon: MonitorRect, pos: OsdPosition, h: int) -> int {
    if pos == OsdPosition::TopLeft || pos == OsdPosition::TopCenter || pos == OsdPosition::TopRight {
        mon.y + MARGIN
    } else if pos == OsdPosition::MiddleLeft || pos == OsdPosition::Center || pos == OsdPosition::MiddleRight {
        mon.y + half(mon.h - h)
    } else {
        mon.y + mon.h - MARGIN - h
    }
}

pub open spec fn fits_i32(v: int) -> bool {
    i32::MIN <= v <= i32::MAX
}

/// Every intermediate of the placement arithmetic fits in `i32`.
pub open spec fn place_fits(mon: MonitorRect, w: int, h: int) -> bool {
    &&& fits_i32(mon.x + MARGIN) && fits_i32(mon.y + MARGIN)
    &&& fits_i32(mon.w - w) && fits_i32(mon.h - h)
    &&& fits_i32(mon.x + half(mon.w - w)) && fits_i32(mon.y + half(mon.h - h))
    &&& fits_i32(mon.x + mon.w) && fits_i32(mon.y + mon.h)
    &&& fits_i32(mon.x + mon.w - MARGIN) && fits_i32(mon.y + mon.h - MARGIN)
    &&& fits_i32(mon.x + mon.w - MARGIN - w) && fits_i32(mon.y + mon.h - MARGIN - h)
}

/// Whether [`place`] can compute the origin for this monitor and size
/// within the `i32` range.
pub fn place_fits_exec(mon: &MonitorRect, w: i32, h: i32) -> (r: bool)
    ensures
        r == place_fits(*mon, w as int, h as int),
{
    let lo = i32::MIN as i64;
    let hi = i32::MAX as i64;
    let x = mon.x as i64;
    let y = mon.y as i64;
    let sw: i64 = mon.w as i64 - w as i64;
    let sh: i64 = mon.h as i64 - h as i64;
    let hx: i64 = if sw >= 0 { sw / 2 } else { -((-sw) / 2) };
    let hy: i64 = if sh >= 0 { sh / 2 } else { -((-sh) / 2) };
    let vals: [i64; 12] = [
        x + MARGIN as i64,
        y + MARGIN as i64,
        sw,
        sh,
        x + hx,
        y + hy,
        x + mon.w as i64,
        y + mon.h as i64,
        x + mon.w as i64 - MARGIN as i64,
        y + mon.h as i64 - MARGIN as i64,
        x + mon.w as i64 - MARGIN as i64 - w as i64,
        y + mon.h as i64 - MARGIN as i64 - h as i64,
    ];
    let mut ok = true;
    let mut i: usize = 0;
    while i < 12
        invariant
            i <= 12,
            ok == forall|j: int| 0 <= j < i ==> lo <= #[trigger] vals@[j] <= hi,
        decreases 12 - i,
    {
        ok = ok && lo <= vals[i] && vals[i] <= hi;
        i = i + 1;
    }
    proof {
        assert(vals@.len() == 12);
        assert(ok == (forall|j: int| 0 <= j < 12 ==> lo <= #[trigger] vals@[j] <= hi));
        if ok {
            assert(lo <= vals@[0] <= hi && lo <= vals@[1] <= hi && lo <= vals@[2] <= hi && lo <= vals@[3] <= hi);
            assert(lo <= vals@[4] <= hi && lo <= vals@[5] <= hi && lo <= vals@[6] <= hi && lo <= vals@[7] <= hi);
            assert(lo <= vals@[8] <= hi && lo <= vals@[9] <= hi && lo <= vals@[10] <= hi && lo <= vals@[11] <= hi);
        } else {
            let j = choose|j: int| 0 <= j < 12 && !(lo <= #[trigger] vals@[j] <= hi);
            assert(!(lo <= vals@[j] <= hi));
        }
    }
    ok
}

/// Window origin for a layout of size `w` x `h` at `pos` on `mon`: edges
/// keep `MARGIN` px from the monitor border, centered axes split the slack.
pub fn place(mon: &MonitorRect, pos: OsdPosition, w: i32, h: i32) -> (r: (i32, i32))
    requires
        place_fits(*mon, w as int, h as int),
    ensures
        r.0 == place_x(*mon, pos, w as int),
        r.1 == place_y(*mon, pos, h as int),
        (pos is TopLeft || pos is MiddleLeft || pos is BottomLeft) ==> r.0 == mon.x + 12,
        (pos is TopRight || pos is MiddleRight || pos is BottomRight) ==> r.0 == mon.x + mon.w - 12 - w,
        (pos is TopCenter || pos is Center || pos is BottomCenter) ==> 2 * (r.0 - mon.x) == mon.w - w
            || 2 * (r.0 - mon.x) == mon.w - w - 1 || 2 * (r.0 - mon.x) == mon.w - w + 1,
        (pos is TopLeft || pos is TopCenter || pos is TopRight) ==> r.1 == mon.y + 12,
        (pos is BottomLeft || pos is BottomCenter || pos is BottomRight) ==> r.1 == mon.y + mon.h - 12 - h,
        (pos is MiddleLeft || pos is Center || pos is MiddleRight) ==> 2 * (r.1 - mon.y) == mon.h - h
            || 2 * (r.1 - mon.y) == mon.h - h - 1 || 2 * (r.1 - mon.y) == mon.h - h + 1,
{
    let x = match pos {
        OsdPosition::TopLeft | OsdPosition::MiddleLeft | OsdPosition::BottomLeft => mon.x + MARGIN,
        OsdPosition::TopCenter | OsdPosition::Center | OsdPosition::BottomCenter => mon.x + half_i32(mon.w - w),
        _ => mon.x + mon.w - MARGIN - w,
    };
    let y = match pos {
        OsdPosition::TopLeft | OsdPosition::TopCenter | OsdPosition::TopRight => mon.y + MARGIN,
        OsdPosition::MiddleLeft | OsdPosition::Center | OsdPosition::MiddleRight => mon.y + half_i32(mon.h - h),
        _ => mon.y + mon.h - MARGIN - h,
    };
    (x, y)
}

/// What the OSD window shows for a state on the primary monitor.
#[derive(Debug, Clone, Copy, PartialEq, Eq)]
pub struct OsdFrame {
    pub x: i32,
    pub y: i32,
    pub layout: Layout,
}

/// The OSD frame for `st` on `mon`: `None` (hide the window) when the OSD
/// is not visible, else the layout placed on the monitor.
pub fn osd_frame(st: &OsdState, mon: &MonitorRect) -> (r: Option<OsdFrame>)
    requires
        ({
            let l = layout_spec(st.position, st.awake, st.auto_blackout, st.find);
            place_fits(*mon, l.w as int, l.h as int)
        }),
    ensures
        !visible_spec(*st) ==> r is None,
        visible_spec(*st) ==> r == Some(
            ({
                let l = layout_spec(st.position, st.awake, st.auto_blackout, st.find);
                OsdFrame {
                    x: place_x(*mon, st.position, l.w as int) as i32,
                    y: place_y(*mon, st.position, l.h as int) as i32,
                    layout: l,
                }
            }),
        ),
{
    if !st.visible() {
        return None;
    }
    let l = layout(st.position, st.awake, st.auto_blackout, st.find);
    let (x, y) = place(mon, st.position, l.w, l.h);
    Some(OsdFrame { x, y, layout: l })
}

/// One pixel after the mask pass: the mask color becomes fully
/// transparent, every other color fully opaque.
pub open spec fn finalize_pixel(p: u32) -> u32 {
    if p & 0x00FF_FFFF == MASK_COLOR { 0 } else { 0xFF00_0000 | (p & 0x00FF_FFFF) }
}

/// GDI writes leave alpha = 0: turn the mask background transparent and
/// every drawn pixel opaque (premultiplied ARGB; shapes are hard-edged).
pub fn finalize_argb(px: &mut [u32])
    ensures
        final(px)@.len() == old(px)@.len(),
        forall|i: int| 0 <= i < old(px)@.len() ==> final(px)@[i] == finalize_pixel(#[trigger] old(px)@[i]),
{
    let n = px.len();
    let mut i: usize = 0;
    while i < n
        invariant
            n == old(px)@.len(),
            px@.len() == n,
            i <= n,
            forall|j: int| 0 <= j < i ==> px@[j] == finalize_pixel(#[trigger] old(px)@[j]),
            forall|j: int| i <= j < n ==> px@[j] == old(px)@[j],
        decreases n - i,
    {
        let v = px[i] & 0x00FF_FFFF;
        px[i] = if v == MASK_COLOR { 0 } else { 0xFF00_0000 | v };
        i = i + 1;
    }
}

/// After the mask pass every pixel is either fully transparent black or
/// fully opaque.
pub proof fn law_mask_pass_is_binary(p: u32)
    ensures
        finalize_pixel(p) == 0 || finalize_pixel(p) >> 24 == 0xFF,
{
    assert((0xFF00_0000u32 | (p & 0x00FF_FFFFu32)) >> 24u32 == 0xFFu32) by (bit_vector);
}

// --- state pushes ---------------------------------------------------------------

/// What a state push asks of the OSD window thread.
#[derive(Debug, Clone, Copy, PartialEq, Eq, Structural)]
pub enum OsdSignal {
    /// Nothing to do (same state, or the thread will read it on start).
    Nothing,
    /// Wake the running window thread (by its id) to repaint.
    Repaint(u32),
    /// Start the window thread; it paints the latest state first.
    Spawn,
}

/// The latest OSD state and the window thread's lifecycle.
#[derive(Debug, Clone, Copy, PartialEq, Eq, Structural)]
pub struct OsdHub {
    pub state: OsdState,
    pub thread_started: bool,
    pub thread_id: Option<u32>,
}

/// The signal a push of `new` yields for hub `h`.
pub open spec fn update_signal(h: OsdHub, new: OsdState) -> OsdSignal {
    if h.state == new {
        OsdSignal::Nothing
    } else if h.thread_started {
        match h.thread_id {
            Some(tid) => OsdSignal::Repaint(tid),
            None => OsdSignal::Nothing,
        }
    } else if visible_spec(new) {
        OsdSignal::Spawn
    } else {
        OsdSignal::Nothing
    }
}

impl OsdHub {
    /// Default state, no window thread.
    pub fn new() -> (h: OsdHub)
        ensures
            h.state == (OsdState {
                enabled: false,
                position: OsdPosition::TopRight,
                awake: false,
                auto_blackout: false,
                blackout: false,
                find: false,
            }),
            !h.thread_started,
            h.thread_id is None,
    {
        OsdHub { state: OsdState::default(), thread_started: false, thread_id: None }
    }

    /// Push the latest OSD state. Identical states are coalesced; a change
    /// wakes the running thread, or starts it when the new state is
    /// visible (a hidden OSD needs no window yet).
    pub fn update(&mut self, new: OsdState) -> (r: OsdSignal)
        ensures
            r == update_signal(*old(self), new),
            final(self).state == new,
            final(self).thread_id == old(self).thread_id,
            final(self).thread_started == (old(self).thread_started || r == OsdSignal::Spawn),
            old(self).state == new ==> r == OsdSignal::Nothing,
            old(self).state != new && old(self).thread_started && old(self).thread_id is Some
                ==> r == OsdSignal::Repaint(old(self).thread_id->0),
            old(self).state != new && !old(self).thread_started
                ==> (r == OsdSignal::Spawn <==> (new.enabled && !new.blackout && (new.awake || new.auto_blackout || new.find))),
    {
        if self.state == new {
            return OsdSignal::Nothing;
        }
        self.state = new;
        if self.thread_started {
            match self.thread_id {
                Some(tid) => OsdSignal::Repaint(tid),
                None => OsdSignal::Nothing,
            }
        } else if new.visible() {
            self.thread_started = true;
            OsdSignal::Spawn
        } else {
            OsdSignal::Nothing
        }
    }

    /// The window thread is up and pumping messages as thread `tid`.
    pub fn thread_ready(&mut self, tid: u32)
        ensures
            *final(self) == (OsdHub { thread_id: Some(tid), ..*old(self) }),
    {
        self.thread_id = Some(tid);
    }

    /// The window thread could not create its window: a later visible push
    /// starts it again.
    pub fn thread_failed(&mut self)
        ensures
            *final(self) == (OsdHub { thread_id: None, thread_started: false, ..*old(self) }),
    {
        self.thread_id = None;
        self.thread_started = false;
    }
}

/// The center layout keeps one window size whatever features are on.
pub proof fn law_center_size_is_stable(a1: bool, b1: bool, c1: bool, a2: bool, b2: bool, c2: bool)
    ensures
        layout_spec(OsdPosition::Center, a1, b1, c1).w == layout_spec(OsdPosition::Center, a2, b2, c2).w,
        layout_spec(OsdPosition::Center, a1, b1, c1).h == layout_spec(OsdPosition::Center, a2, b2, c2).h,
{
}

/// Outside the center, a lone icon always sits at the start of the span
/// and the window is exactly one icon big.
pub proof fn law_lone_icon_fills_first_slot(pos: OsdPosition, awake: bool, auto: bool, find: bool)
    requires
        pos != OsdPosition::Center,
        b2i(awake) + b2i(auto) + b2i(find) == 1,
    ensures
        ({
            let l = layout_spec(pos, awake, auto, find);
            &&& l.w == ICON && l.h == ICON
            &&& (awake ==> l.coffee == Some((0i32, 0i32)))
            &&& (auto ==> l.eye == Some((0i32, 0i32)))
            &&& (find ==> l.pointer == Some((0i32, 0i32)))
        }),
{
}

/// An icon cell at `at` lies inside a `w` x `h` window.
pub open spec fn cell_inside(at: Option<(i32, i32)>, w: int, h: int) -> bool {
    at matches Some(p) ==> 0 <= p.0 && p.0 + ICON <= w && 0 <= p.1 && p.1 + ICON <= h
}

/// Two icon cells do not overlap.
pub open spec fn cells_apart(a: Option<(i32, i32)>, b: Option<(i32, i32)>) -> bool {
    match (a, b) {
        (Some(p), Some(q)) => p.0 + ICON <= q.0 || q.0 + ICON <= p.0 || p.1 + ICON <= q.1 || q.1 + ICON <= p.1,
        _ => true,
    }
}

/// Every drawn icon lies inside the OSD window, and no two icons overlap.
pub proof fn law_icons_fit_and_do_not_overlap(pos: OsdPosition, awake: bool, auto: bool, find: bool)
    ensures
        ({
            let l = layout_spec(pos, awake, auto, find);
            &&& cell_inside(l.coffee, l.w as int, l.h as int)
            &&& cell_inside(l.eye, l.w as int, l.h as int)
            &&& cell_inside(l.pointer, l.w as int, l.h as int)
            &&& cells_apart(l.coffee, l.eye)
            &&& cells_apart(l.coffee, l.pointer)
            &&& cells_apart(l.eye, l.pointer)
        }),
{
}

/// Where each of the nine positions puts the window: the left, top, right
/// and bottom ones keep 12 px from that monitor edge; the centered axes
/// split the slack `s` in half, rounded toward zero, so the window sits
/// equally far (within one pixel) from both edges.
pub proof fn law_place_positions(mon: MonitorRect, pos: OsdPosition, w: int, h: int)
    ensures
        (pos is TopLeft || pos is MiddleLeft || pos is BottomLeft) ==> place_x(mon, pos, w) == mon.x + 12,
        (pos is TopRight || pos is MiddleRight || pos is BottomRight) ==> place_x(mon, pos, w) == mon.x + mon.w - 12 - w,
        (pos is TopCenter || pos is Center || pos is BottomCenter) ==> ({
            let s = mon.w - w;
            place_x(mon, pos, w) == mon.x + (if s >= 0 { s / 2 } else { -((-s) / 2) })
        }),
        (pos is TopLeft || pos is TopCenter || pos is TopRight) ==> place_y(mon, pos, h) == mon.y + 12,
        (pos is BottomLeft || pos is BottomCenter || pos is BottomRight) ==> place_y(mon, pos, h) == mon.y + mon.h - 12 - h,
        (pos is MiddleLeft || pos is Center || pos is MiddleRight) ==> ({
            let s = mon.h - h;
            place_y(mon, pos, h) == mon.y + (if s >= 0 { s / 2 } else { -((-s) / 2) })
        }),
        pos is Center ==> ({
            let top = place_y(mon, pos, h) - mon.y;
            let bottom = mon.y + mon.h - (place_y(mon, pos, h) + h);
            let left = place_x(mon, pos, w) - mon.x;
            let right = mon.x + mon.w - (place_x(mon, pos, w) + w);
            &&& -1 <= top - bottom <= 1
            &&& -1 <= left - right <= 1
        }),
{
}

/// When the window fits inside the monitor with its margins, it is placed
/// inside the monitor at every position.
pub proof fn law_window_inside_monitor(mon: MonitorRect, pos: OsdPosition, w: int, h: int)
    requires
        0 <= w,
        0 <= h,
        w + 2 * MARGIN <= mon.w,
        h + 2 * MARGIN <= mon.h,
    ensures
        mon.x <= place_x(mon, pos, w),
        place_x(mon, pos, w) + w <= mon.x + mon.w,
        mon.y <= place_y(mon, pos, h),
        place_y(mon, pos, h) + h <= mon.y + mon.h,
{
}

/// Every change of state reaches a registered window thread, whether the
/// new state shows the OSD or hides it: the thread repaints or hides.
pub proof fn law_change_reaches_running_thread(h: OsdHub, new: OsdState, tid: u32)
    requires
        h.state != new,
        h.thread_started,
        h.thread_id == Some(tid),
    ensures
        update_signal(h, new) == OsdSignal::Repaint(tid),
{
}

/// Without a window thread, a change starts one exactly when the new state
/// shows something: enabled, no blackout, and at least one icon.
pub proof fn law_spawn_only_for_visible(h: OsdHub, new: OsdState)
    requires
        h.state != new,
        !h.thread_started,
    ensures
        update_signal(h, new) == OsdSignal::Spawn
            <==> (new.enabled && !new.blackout && (new.awake || new.auto_blackout || new.find)),
        update_signal(h, new) != OsdSignal::Spawn ==> update_signal(h, new) == OsdSignal::Nothing,
{
}

/// Pushing the state the hub already holds never signals the thread.
pub proof fn law_same_state_is_coalesced(h: OsdHub)
    ensures
        update_signal(h, h.state) == OsdSignal::Nothing,
{
}

} // verus!
