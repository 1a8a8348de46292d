//! Shake-to-find-the-cursor: the fast side-to-side shake detector, the
//! effect's lifetime controller, and the integer parts of each frame plan
//! (ripple schedule, window placement, direction-arrow bookkeeping).
//!
//! While a blackout is NOT showing, every mouse move feeds a
//! [`FindDetector`]; a deliberate oscillation fires the effect. During a
//! blackout the same gesture stays an unlock action.

use std::collections::VecDeque;
use vstd::prelude::*;
use crate::clock::now_ms;
use crate::gesture::{
    lemma_monotone_no_flips, flips, path_len, record, record_sample, stroke_summary, x_extent_upto,
    x_monotone, min_int, Sample,
};
use crate::win32::{half, half_i32, in_monitor, point_in_monitor, MonitorRect};

verus! {

/// Trailing window for the find-shake (ms).
pub const FIND_WINDOW_MS: u128 = 550;
/// Minimum horizontal excursion (px) for a segment to count as a stroke.
pub const FIND_MIN_DX: i32 = 20;
/// Direction reversals required inside the window.
pub const FIND_FLIPS_NEEDED: u32 = 3;
/// Minimum total pointer path (px) inside the window.
pub const FIND_MIN_PATH: i64 = 220;

/// How long the effect keeps playing after the last detected shake (ms).
pub const HOLD_MS: u64 = 1600;
/// Render cadence while playing (ms).
pub const FRAME_MS: u64 = 8;
/// Wake-up cadence while the effect thread waits for a trigger (ms).
pub const POLL_MS: u64 = 16;
/// Spotlight window edge (px).
pub const SPOT_SIZE: i32 = 680;
/// Ripple lifetime (ms).
pub const RING_LIFE_MS: u64 = 900;
/// Ripple spawn interval (ms).
pub const RING_SPAWN_MS: u64 = 420;
/// No ripple is born within this many ms of the effect's end.
pub const RING_TAIL_MS: u64 = 300;
/// Monitor topology refresh interval (ms).
pub const RECONCILE_MS: u64 = 500;
/// Fade-to-transparent ramp at the very end of the effect (ms).
pub const FADE_MS: u64 = 250;

// --- detection ------------------------------------------------------------------

/// The trail holds a find-shake: enough reversals and path.
pub open spec fn is_find_shake(trail: Seq<Sample>) -> bool {
    flips(trail, FIND_MIN_DX as int) >= FIND_FLIPS_NEEDED && path_len(trail) >= FIND_MIN_PATH
}

/// Peak-to-peak horizontal amplitude of the trailing window (every sample
/// of the trail and the latest x), capped at `i32::MAX`.
pub open spec fn amplitude(trail: Seq<Sample>, x: i32) -> int {
    let e = x_extent_upto(trail, trail.len() as int, x as int);
    min_int(e.1 - e.0, i32::MAX as int)
}

proof fn lemma_extent_ordered(pts: Seq<Sample>, k: int, x: int)
    ensures
        x_extent_upto(pts, k, x).0 <= x <= x_extent_upto(pts, k, x).1,
    decreases k,
{
    if k >= 1 {
        lemma_extent_ordered(pts, k - 1, x);
    }
}

/// Stateful side-to-side shake detector. On a detected shake it reports the
/// horizontal amplitude of the trailing window and starts over.
#[derive(Debug)]
pub struct FindDetector {
    trail: VecDeque<Sample>,
}

impl View for FindDetector {
    /// The trailing samples.
    type V = Seq<Sample>;

    closed spec fn view(&self) -> Seq<Sample> {
        self.trail@
    }
}

/// What feeding (x, y) at `now` to a detector holding `trail` yields:
/// the detector's next trail and the reported amplitude, if any.
pub open spec fn find_step(trail: Seq<Sample>, x: i32, y: i32, now: u128) -> (Seq<Sample>, Option<i32>) {
    let t = record(trail, now, x, y, FIND_WINDOW_MS);
    if is_find_shake(t) {
        (Seq::empty(), Some(amplitude(t, x) as i32))
    } else {
        (t, None)
    }
}

impl Default for FindDetector {
    fn default() -> (d: FindDetector)
        ensures
            d@ == Seq::<Sample>::empty(),
    {
        FindDetector::new()
    }
}

impl FindDetector {
    /// A detector with an empty trail.
    pub fn new() -> (d: FindDetector)
        ensures
            d@ == Seq::<Sample>::empty(),
    {
        FindDetector { trail: VecDeque::new() }
    }

    /// Forget the trail.
    pub fn reset(&mut self)
        ensures
            final(self)@ == Seq::<Sample>::empty(),
    {
        self.trail.clear();
    }

    /// Feed a mouse position observed at `now` (ms). `Some(amplitude_px)`
    /// on a detected shake, after which the trail starts over.
    pub fn feed_at(&mut self, x: i32, y: i32, now: u128) -> (r: Option<i32>)
        ensures
            (final(self)@, r) == find_step(old(self)@, x, y, now),
    {
        record_sample(&mut self.trail, now, x, y, FIND_WINDOW_MS);
        let (flips, path, min_x, max_x) = stroke_summary(&self.trail, FIND_MIN_DX as i64, x);
        if flips >= FIND_FLIPS_NEEDED as u64 && path >= FIND_MIN_PATH as u128 {
            self.trail.clear();
            let amp: i64 = max_x as i64 - min_x as i64;
            if amp > i32::MAX as i64 {
                Some(i32::MAX)
            } else {
                Some(amp as i32)
            }
        } else {
            None
        }
    }

    /// Feed a mouse position stamped with the current wall-clock time.
    /// `Some(amplitude_px)` on a detected shake.
    pub fn feed(&mut self, x: i32, y: i32) -> (r: Option<i32>)
        ensures
            exists|now: u128| #[trigger] find_step(old(self)@, x, y, now) == (final(self)@, r),
    {
        let now = now_ms();
        self.feed_at(x, y, now)
    }
}

/// A trail whose pointer never reverses horizontal direction (a straight
/// drag, tiny same-direction drifts, purely vertical motion) never fires
/// the find effect.
pub proof fn law_straight_path_never_finds(trail: Seq<Sample>, x: i32, y: i32, now: u128)
    requires
        x_monotone(record(trail, now, x, y, FIND_WINDOW_MS)),
    ensures
        find_step(trail, x, y, now).1 is None,
{
    lemma_monotone_no_flips(record(trail, now, x, y, FIND_WINDOW_MS), FIND_MIN_DX as int);
}

/// A reported amplitude is never negative, and a detection always starts
/// the detector over.
pub proof fn law_detection_restarts(trail: Seq<Sample>, x: i32, y: i32, now: u128)
    ensures
        find_step(trail, x, y, now).1 matches Some(a) ==> a >= 0 && find_step(trail, x, y, now).0.len() == 0,
{
    let t = record(trail, now, x, y, FIND_WINDOW_MS);
    lemma_extent_ordered(t, t.len() as int, x as int);
}

// --- effect lifetime -------------------------------------------------------------

/// Which sub-effects a trigger runs.
#[derive(Debug, Clone, Copy, PartialEq, Eq, Structural)]
pub struct FindOpts {
    /// Enlarge the cursor itself.
    pub magnify: bool,
    /// Circular ripple waves around the cursor.
    pub ripple: bool,
    /// Solid direction arrows on the monitors without the cursor.
    pub arrows: bool,
}

impl Default for FindOpts {
    fn default() -> (r: FindOpts)
        ensures
            r == (FindOpts { magnify: true, ripple: true, arrows: true }),
    {
        FindOpts { magnify: true, ripple: true, arrows: true }
    }
}

/// Shared state of the find effect: whether it plays, where the cursor is,
/// when it ends, whether its render thread exists, and which sub-effects run.
#[derive(Debug, Clone, Copy, PartialEq, Eq, Structural)]
pub struct FindController {
    pub active: bool,
    pub cursor_x: i32,
    pub cursor_y: i32,
    /// Tick (ms) at which the effect ends.
    pub deadline: u64,
    pub thread_started: bool,
    pub opts: FindOpts,
}

impl FindController {
    /// Idle controller: nothing plays, no render thread yet.
    pub fn new() -> (c: FindController)
        ensures
            !c.active,
            !c.thread_started,
            c.cursor_x == 0 && c.cursor_y == 0,
            c.deadline == 0,
            c.opts == (FindOpts { magnify: true, ripple: true, arrows: true }),
    {
        FindController {
            active: false,
            cursor_x: 0,
            cursor_y: 0,
            deadline: 0,
            thread_started: false,
            opts: FindOpts::default(),
        }
    }
}

/// Fire (or re-fire) the find effect at the cursor (x, y) at tick `now`:
/// the effect plays until `now + HOLD_MS` with `opts`. Returns true when
/// the render thread must be started (the first trigger only).
pub fn trigger(ctl: &mut FindController, x: i32, y: i32, opts: FindOpts, now: u32) -> (spawn: bool)
    ensures
        final(ctl).active,
        final(ctl).cursor_x == x && final(ctl).cursor_y == y,
        final(ctl).opts == opts,
        final(ctl).deadline == now + HOLD_MS,
        final(ctl).thread_started,
        spawn == !old(ctl).thread_started,
{
    ctl.cursor_x = x;
    ctl.cursor_y = y;
    ctl.opts = opts;
    ctl.deadline = now as u64 + HOLD_MS;
    ctl.active = true;
    let spawn = !ctl.thread_started;
    ctl.thread_started = true;
    spawn
}

/// Track the cursor position.
pub fn notify_move(ctl: &mut FindController, x: i32, y: i32)
    ensures
        *final(ctl) == (FindController { cursor_x: x, cursor_y: y, ..*old(ctl) }),
{
    ctl.cursor_x = x;
    ctl.cursor_y = y;
}

/// Stop the effect at the next frame: the deadline becomes tick `now`.
pub fn cancel(ctl: &mut FindController, now: u32)
    ensures
        *final(ctl) == (FindController { deadline: now as u64, ..*old(ctl) }),
{
    ctl.deadline = now as u64;
}

/// Whether the effect is playing.
pub fn is_showing(ctl: &FindController) -> (r: bool)
    ensures
        r == ctl.active,
{
    ctl.active
}

/// What the render thread does on one wake-up.
#[derive(Debug, Clone, Copy, PartialEq, Eq, Structural)]
pub enum FindStep {
    /// Nothing plays: keep waiting (poll cadence).
    Park,
    /// A trigger arrived: create the effect windows.
    Start,
    /// The effect outlived its deadline: destroy the effect windows.
    Stop,
    /// The effect plays: render a frame (frame cadence).
    Render,
}

/// The step the render thread takes at tick `now`, given whether an effect
/// (its windows) is alive.
pub open spec fn step_of(ctl: FindController, live: bool, now: u64) -> FindStep {
    if !live {
        if ctl.active { FindStep::Start } else { FindStep::Park }
    } else if now >= ctl.deadline {
        FindStep::Stop
    } else {
        FindStep::Render
    }
}

/// Decide the render thread's next step; an expired effect stops playing.
pub fn frame_step(ctl: &mut FindController, live: bool, now: u64) -> (r: FindStep)
    ensures
        r == step_of(*old(ctl), live, now),
        *final(ctl) == (if r == FindStep::Stop { FindController { active: false, ..*old(ctl) } } else { *old(ctl) }),
{
    if !live {
        if ctl.active { FindStep::Start } else { FindStep::Park }
    } else if now >= ctl.deadline {
        ctl.active = false;
        FindStep::Stop
    } else {
        FindStep::Render
    }
}

/// The effect windows could not be created: stop playing.
pub fn abandon(ctl: &mut FindController)
    ensures
        *final(ctl) == (FindController { active: false, ..*old(ctl) }),
{
    ctl.active = false;
}

/// Once cancelled at tick `t`, a live effect stops at its next frame at or
/// after `t`, and is then no longer showing.
pub proof fn law_cancel_stops_next_frame(ctl: FindController, t: u32, now: u64)
    requires
        now >= t,
    ensures
        step_of(FindController { deadline: t as u64, ..ctl }, true, now) == FindStep::Stop,
{
}

/// Every frame before the deadline of the latest trigger renders.
pub proof fn law_trigger_plays_until_deadline(ctl: FindController, x: i32, y: i32, opts: FindOpts, t: u32, now: u64)
    requires
        now < t + HOLD_MS,
    ensures
        step_of(
            FindController {
                active: true,
                cursor_x: x,
                cursor_y: y,
                opts: opts,
                deadline: (t + HOLD_MS) as u64,
                thread_started: true,
            },
            true,
            now,
        ) == FindStep::Render,
{
}

/// How long the render thread sleeps before its next wake-up: the poll
/// cadence while parked, the frame cadence while an effect is alive.
pub fn sleep_ms(live: bool) -> (r: u64)
    ensures
        r == (if live { FRAME_MS } else { POLL_MS }),
{
    if live { FRAME_MS } else { POLL_MS }
}

/// The render thread's schedule while an effect is alive: when the next
/// frame is due and when the monitor topology is next refreshed.
#[derive(Debug, Clone, Copy, PartialEq, Eq, Structural)]
pub struct FrameTimers {
    pub next_frame: u64,
    pub next_reconcile: u64,
}

impl FrameTimers {
    /// Schedule for an effect created at tick `now`: a frame right away,
    /// a topology refresh `RECONCILE_MS` later.
    pub fn start(now: u64) -> (t: FrameTimers)
        requires
            now <= u64::MAX - RECONCILE_MS,
        ensures
            t == (FrameTimers { next_frame: now, next_reconcile: (now + RECONCILE_MS) as u64 }),
    {
        FrameTimers { next_frame: now, next_reconcile: now + RECONCILE_MS }
    }

    /// At tick `now`: (refresh the topology?, render a frame?), each
    /// rescheduled one period later when due.
    pub fn tick(&mut self, now: u64) -> (r: (bool, bool))
        requires
            now <= u64::MAX - RECONCILE_MS,
        ensures
            r == (now >= old(self).next_reconcile, now >= old(self).next_frame),
            final(self).next_reconcile == (if r.0 { (now + RECONCILE_MS) as u64 } else { old(self).next_reconcile }),
            final(self).next_frame == (if r.1 { (now + FRAME_MS) as u64 } else { old(self).next_frame }),
    {
        let reconcile = now >= self.next_reconcile;
        if reconcile {
            self.next_reconcile = now + RECONCILE_MS;
        }
        let render = now >= self.next_frame;
        if render {
            self.next_frame = now + FRAME_MS;
        }
        (reconcile, render)
    }
}

// --- frame planning --------------------------------------------------------------

/// A ripple born at `born` is still visible at `now`.
pub open spec fn ring_alive(born: u64, now: u64) -> bool {
    !(now > born && now - born >= RING_LIFE_MS)
}

/// The ripples of `rings` still visible at `now`, in order.
pub open spec fn live_rings(rings: Seq<u64>, now: u64) -> Seq<u64>
    decreases rings.len(),
{
    if rings.len() == 0 {
        Seq::empty()
    } else if ring_alive(rings.last(), now) {
        live_rings(rings.drop_last(), now).push(rings.last())
    } else {
        live_rings(rings.drop_last(), now)
    }
}

/// A ripple is due at `next` when it is not in the future and the effect
/// still has more than `RING_TAIL_MS` to go after it.
pub open spec fn ring_due(next: int, now: int, deadline: int) -> bool {
    next <= now && deadline > next && deadline - next > RING_TAIL_MS
}

/// Birth times of the ripples spawned at tick `now`, starting from `next`
/// and spaced `RING_SPAWN_MS` apart.
pub open spec fn spawned_rings(next: int, now: int, deadline: int) -> Seq<u64>
    decreases now + RING_SPAWN_MS - next,
{
    if ring_due(next, now, deadline) {
        seq![next as u64] + spawned_rings(next + RING_SPAWN_MS, now, deadline)
    } else {
        Seq::empty()
    }
}

/// The next spawn time after spawning the due ripples.
pub open spec fn next_ring_after(next: int, now: int, deadline: int) -> int
    decreases now + RING_SPAWN_MS - next,
{
    if ring_due(next, now, deadline) {
        next_ring_after(next + RING_SPAWN_MS, now, deadline)
    } else {
        next
    }
}

/// Ripple bookkeeping for the frame at tick `now`: expired ripples go, and
/// the ripples that came due are born.
pub fn advance_rings(rings: &mut Vec<u64>, next_ring: &mut u64, now: u64, deadline: u64)
    requires
        deadline <= u64::MAX - RING_SPAWN_MS,
    ensures
        final(rings)@ == live_rings(old(rings)@, now) + spawned_rings(*old(next_ring) as int, now as int, deadline as int),
        *final(next_ring) == next_ring_after(*old(next_ring) as int, now as int, deadline as int),
{
    let ghost old_rings = rings@;
    let mut kept: Vec<u64> = Vec::new();
    let mut i: usize = 0;
    while i < rings.len()
        invariant
            rings@ == old_rings,
            i <= rings@.len(),
            kept@ == live_rings(old_rings.take(i as int), now),
        decreases rings@.len() - i,
    {
        let born = rings[i];
        proof {
            assert(old_rings.take(i + 1).drop_last() =~= old_rings.take(i as int));
        }
        if !(now > born && now - born >= RING_LIFE_MS) {
            kept.push(born);
        }
        i = i + 1;
    }
    proof {
        assert(old_rings.take(old_rings.len() as int) =~= old_rings);
    }
    let ghost start = *next_ring as int;
    let ghost born_now: Seq<u64> = Seq::empty();
    while *next_ring <= now && deadline > *next_ring && deadline - *next_ring > RING_TAIL_MS
        invariant
            deadline <= u64::MAX - RING_SPAWN_MS,
            kept@ == live_rings(old_rings, now) + born_now,
            born_now + spawned_rings(*next_ring as int, now as int, deadline as int) == spawned_rings(
                start,
                now as int,
                deadline as int,
            ),
            next_ring_after(*next_ring as int, now as int, deadline as int) == next_ring_after(
                start,
                now as int,
                deadline as int,
            ),
        decreases now + RING_SPAWN_MS - *next_ring,
    {
        let ghost cur = *next_ring as int;
        kept.push(*next_ring);
        proof {
            let rest = spawned_rings(cur + RING_SPAWN_MS, now as int, deadline as int);
            assert(spawned_rings(cur, now as int, deadline as int) == seq![cur as u64] + rest);
            assert(born_now.push(cur as u64) + rest =~= born_now + (seq![cur as u64] + rest));
            born_now = born_now.push(cur as u64);
        }
        *next_ring = *next_ring + RING_SPAWN_MS;
    }
    proof {
        assert(born_now + Seq::<u64>::empty() =~= born_now);
    }
    *rings = kept;
}

/// Top-left corner of the spotlight window centered on the cursor
/// (`None` when it falls outside the `i32` range).
pub fn spot_origin(cx: i32, cy: i32) -> (r: Option<(i32, i32)>)
    ensures
        r == (if cx - SPOT_SIZE / 2 >= i32::MIN && cy - SPOT_SIZE / 2 >= i32::MIN {
            Some(((cx - SPOT_SIZE / 2) as i32, (cy - SPOT_SIZE / 2) as i32))
        } else {
            None::<(i32, i32)>
        }),
{
    let x: i64 = cx as i64 - (SPOT_SIZE / 2) as i64;
    let y: i64 = cy as i64 - (SPOT_SIZE / 2) as i64;
    if x >= i32::MIN as i64 && y >= i32::MIN as i64 {
        Some((x as i32, y as i32))
    } else {
        None
    }
}

/// Whether the system cursor must be swapped this frame: `Some(true)` to
/// hide it (magnify on, still visible), `Some(false)` to restore it
/// (magnify off, still hidden), `None` when it already matches.
pub fn cursor_swap(magnify: bool, cursor_hidden: bool) -> (r: Option<bool>)
    ensures
        r == (if magnify != cursor_hidden { Some(magnify) } else { None::<bool> }),
{
    if magnify != cursor_hidden {
        Some(magnify)
    } else {
        None
    }
}

/// The index of the first monitor holding the cursor (x, y), or 0 when
/// none does.
pub fn cursor_monitor(mons: &Vec<MonitorRect>, x: i32, y: i32) -> (r: usize)
    ensures
        (exists|i: int| 0 <= i < mons@.len() && in_monitor(mons@[i], x as int, y as int)) ==> r < mons@.len()
            && in_monitor(mons@[r as int], x as int, y as int) && forall|j: int|
            0 <= j < r ==> !in_monitor(#[trigger] mons@[j], x as int, y as int),
        (forall|i: int| 0 <= i < mons@.len() ==> !in_monitor(#[trigger] mons@[i], x as int, y as int)) ==> r == 0,
{
    let mut i: usize = 0;
    while i < mons.len()
        invariant
            i <= mons@.len(),
            forall|j: int| 0 <= j < i ==> !in_monitor(#[trigger] mons@[j], x as int, y as int),
        decreases mons@.len() - i,
    {
        if point_in_monitor(&mons[i], x, y) {
            return i;
        }
        i = i + 1;
    }
    0
}

/// The vector from the center of monitor `from` to the center of `to`.
pub open spec fn center_delta_spec(from: MonitorRect, to: MonitorRect) -> (int, int) {
    (to.x + half(to.w as int) - (from.x + half(from.w as int)), to.y + half(to.h as int) - (from.y + half(from.h as int)))
}

/// Both monitors' centers and their difference fit in `i32`.
pub open spec fn centers_fit(from: MonitorRect, to: MonitorRect) -> bool {
    let d = center_delta_spec(from, to);
    &&& i32::MIN <= to.x + half(to.w as int) <= i32::MAX
    &&& i32::MIN <= from.x + half(from.w as int) <= i32::MAX
    &&& i32::MIN <= to.y + half(to.h as int) <= i32::MAX
    &&& i32::MIN <= from.y + half(from.h as int) <= i32::MAX
    &&& i32::MIN <= d.0 <= i32::MAX
    &&& i32::MIN <= d.1 <= i32::MAX
}

/// The vector from the center of monitor `from` to the center of `to`,
/// which the direction arrow on `from` points along (`None` when a center
/// or the difference falls outside the `i32` range).
pub fn center_delta(from: &MonitorRect, to: &MonitorRect) -> (r: Option<(i32, i32)>)
    ensures
        r is Some <==> centers_fit(*from, *to),
        r matches Some(d) ==> d.0 == center_delta_spec(*from, *to).0 && d.1 == center_delta_spec(*from, *to).1,
{
    let tx: i64 = to.x as i64 + half_i32(to.w) as i64;
    let fx: i64 = from.x as i64 + half_i32(from.w) as i64;
    let ty: i64 = to.y as i64 + half_i32(to.h) as i64;
    let fy: i64 = from.y as i64 + half_i32(from.h) as i64;
    let dx: i64 = tx - fx;
    let dy: i64 = ty - fy;
    let lo = i32::MIN as i64;
    let hi = i32::MAX as i64;
    if lo <= tx && tx <= hi && lo <= fx && fx <= hi && lo <= ty && ty <= hi && lo <= fy && fy <= hi && lo <= dx
        && dx <= hi && lo <= dy && dy <= hi {
        Some((dx as i32, dy as i32))
    } else {
        None
    }
}

/// The top-left corner of a `side` x `side` window centered on `mon`.
pub open spec fn arrow_origin_spec(mon: MonitorRect, side: i32) -> (int, int) {
    (mon.x + half(mon.w - side), mon.y + half(mon.h - side))
}

/// Top-left corner of a `side` x `side` arrow window centered on `mon`
/// (`None` when it falls outside the `i32` range).
pub fn arrow_origin(mon: &MonitorRect, side: i32) -> (r: Option<(i32, i32)>)
    ensures
        r is Some <==> (i32::MIN <= arrow_origin_spec(*mon, side).0 <= i32::MAX && i32::MIN <= arrow_origin_spec(
            *mon,
            side,
        ).1 <= i32::MAX),
        r matches Some(o) ==> o.0 == arrow_origin_spec(*mon, side).0 && o.1 == arrow_origin_spec(*mon, side).1,
{
    let sw: i64 = mon.w as i64 - side as i64;
    let sh: i64 = mon.h as i64 - side as i64;
    let hx: i64 = if sw >= 0 { sw / 2 } else { -((-sw) / 2) };
    let hy: i64 = if sh >= 0 { sh / 2 } else { -((-sh) / 2) };
    let x: i64 = mon.x as i64 + hx;
    let y: i64 = mon.y as i64 + hy;
    if i32::MIN as i64 <= x && x <= i32::MAX as i64 && i32::MIN as i64 <= y && y <= i32::MAX as i64 {
        Some((x as i32, y as i32))
    } else {
        None
    }
}

/// Whether an arrow window sitting on monitor `a` survives a topology
/// refresh with `n` monitors, the cursor on monitor `cm`, and the arrows
/// option `arrows`. With no monitors reported nothing changes.
pub open spec fn arrow_kept(a: usize, n: usize, cm: usize, arrows: bool) -> bool {
    n == 0 || (arrows && n > 1 && a < n && a != cm)
}

/// Monitors among 0..k that need a new arrow window: every monitor but the
/// cursor's one that has no arrow window yet.
pub open spec fn arrows_missing_upto(existing: Seq<usize>, cm: usize, k: int) -> Seq<usize>
    decreases k,
{
    if k <= 0 {
        Seq::empty()
    } else if (k - 1) != cm && !existing.contains((k - 1) as usize) {
        arrows_missing_upto(existing, cm, k - 1).push((k - 1) as usize)
    } else {
        arrows_missing_upto(existing, cm, k - 1)
    }
}

/// Arrow windows to create in a refresh (in monitor order).
pub open spec fn arrows_to_create(existing: Seq<usize>, n: usize, cm: usize, arrows: bool) -> Seq<usize> {
    if n > 1 && arrows {
        arrows_missing_upto(existing, cm, n as int)
    } else {
        Seq::empty()
    }
}

proof fn lemma_missing_contains(existing: Seq<usize>, cm: usize, k: int, m: usize)
    requires
        k <= usize::MAX,
    ensures
        arrows_missing_upto(existing, cm, k).contains(m) <==> (m < k && m != cm && !existing.contains(m)),
    decreases k,
{
    if k > 0 {
        lemma_missing_contains(existing, cm, k - 1, m);
        let prev = arrows_missing_upto(existing, cm, k - 1);
        if (k - 1) != cm && !existing.contains((k - 1) as usize) {
            let p = prev.push((k - 1) as usize);
            assert(p[prev.len() as int] == (k - 1) as usize);
            if p.contains(m) && m != (k - 1) as usize {
                let q = choose|q: int| 0 <= q < p.len() && p[q] == m;
                assert(q != prev.len());
                assert(prev[q] == m);
            }
            if prev.contains(m) {
                let q = choose|q: int| 0 <= q < prev.len() && prev[q] == m;
                assert(p[q] == m);
            }
        }
    }
}

/// After a topology refresh, arrows sit only on monitors other than the
/// cursor's: an arrow on the cursor's monitor, on a vanished monitor, or
/// with the option off (or a single monitor) is destroyed, and new ones go
/// exactly on the other monitors that have none yet. With no monitors
/// reported nothing changes.
pub proof fn law_arrows_avoid_the_cursor_monitor(existing: Seq<usize>, n: usize, cm: usize, arrows: bool)
    ensures
        forall|a: usize| n == 0 ==> #[trigger] arrow_kept(a, n, cm, arrows),
        forall|a: usize| n > 0 && a == cm ==> !#[trigger] arrow_kept(a, n, cm, arrows),
        forall|a: usize| n > 0 && a >= n ==> !#[trigger] arrow_kept(a, n, cm, arrows),
        forall|a: usize| n > 0 && (!arrows || n == 1) ==> !#[trigger] arrow_kept(a, n, cm, arrows),
        forall|m: usize| #[trigger] arrows_to_create(existing, n, cm, arrows).contains(m)
            <==> (arrows && n > 1 && m < n && m != cm && !existing.contains(m)),
{
    assert forall|m: usize| #[trigger] arrows_to_create(existing, n, cm, arrows).contains(m)
        <==> (arrows && n > 1 && m < n && m != cm && !existing.contains(m)) by {
        lemma_missing_contains(existing, cm, n as int, m);
    }
}

/// Plan a topology refresh of the direction-arrow windows. `existing[k]` is
/// the monitor of the k-th arrow window; the result says which of them stay
/// (the others are destroyed) and on which monitors new ones are created.
pub fn plan_arrows(existing: &Vec<usize>, n: usize, cursor_mon: usize, arrows: bool) -> (r: (Vec<bool>, Vec<usize>))
    ensures
        r.0@.len() == existing@.len(),
        forall|k: int| 0 <= k < existing@.len() ==> r.0@[k] == arrow_kept(existing@[k], n, cursor_mon, arrows),
        r.1@ == arrows_to_create(existing@, n, cursor_mon, arrows),
        n == 0 ==> forall|k: int| 0 <= k < existing@.len() ==> r.0@[k],
        forall|k: int| 0 <= k < existing@.len() && n > 0 && existing@[k] == cursor_mon ==> !r.0@[k],
        forall|k: int| 0 <= k < existing@.len() && n > 0 && existing@[k] >= n ==> !r.0@[k],
        forall|k: int| 0 <= k < existing@.len() && n > 0 && (!arrows || n == 1) ==> !r.0@[k],
        forall|m: usize| r.1@.contains(m) <==> (arrows && n > 1 && m < n && m != cursor_mon && !existing@.contains(m)),
{
    proof {
        law_arrows_avoid_the_cursor_monitor(existing@, n, cursor_mon, arrows);
    }
    let mut keep: Vec<bool> = Vec::new();
    let mut k: usize = 0;
    while k < existing.len()
        invariant
            k <= existing@.len(),
            keep@.len() == k,
            forall|j: int| 0 <= j < k ==> keep@[j] == arrow_kept(existing@[j], n, cursor_mon, arrows),
        decreases existing@.len() - k,
    {
        let a = existing[k];
        keep.push(n == 0 || (arrows && n > 1 && a < n && a != cursor_mon));
        k = k + 1;
    }
    let mut create: Vec<usize> = Vec::new();
    if n > 1 && arrows {
        let mut i: usize = 0;
        while i < n
            invariant
                i <= n,
                create@ == arrows_missing_upto(existing@, cursor_mon, i as int),
            decreases n - i,
        {
            if i != cursor_mon {
                let mut found = false;
                let mut j: usize = 0;
                while j < existing.len()
                    invariant
                        j <= existing@.len(),
                        found == exists|q: int| 0 <= q < j && existing@[q] == i,
                    decreases existing@.len() - j,
                {
                    if existing[j] == i {
                        found = true;
                    }
                    j = j + 1;
                }
                if !found {
                    create.push(i);
                }
            }
            i = i + 1;
        }
    }
    proof {
        assert forall|m: usize| create@.contains(m)
            <==> (arrows && n > 1 && m < n && m != cursor_mon && !existing@.contains(m)) by {
            assert(arrows_to_create(existing@, n, cursor_mon, arrows).contains(m) == create@.contains(m));
        }
    }
    (keep, create)
}

} // verus!
