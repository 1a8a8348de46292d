//! Pointer-trail bookkeeping shared by the unlock shake and the find-cursor
//! shake: a time-windowed trail of samples and its stroke statistics
//! (direction reversals, travelled path and horizontal extent).

use std::collections::VecDeque;
use vstd::prelude::*;

verus! {

/// One pointer sample: (timestamp in ms, x, y).
pub type Sample = (u128, i32, i32);

pub open spec fn abs_int(v: int) -> int {
    if v < 0 { -v } else { v }
}

pub open spec fn min_int(a: int, b: int) -> int {
    if a <= b { a } else { b }
}

pub open spec fn max_int(a: int, b: int) -> int {
    if a >= b { a } else { b }
}

/// A sample is stale once more than `window` ms separate it from `now`
/// (a sample stamped after `now` is never stale).
pub open spec fn is_stale(t: u128, now: u128, window: u128) -> bool {
    now > t && now - t > window
}

/// Drop stale samples from the front of the trail, stopping at the first
/// fresh one.
pub open spec fn prune(trail: Seq<Sample>, now: u128, window: u128) -> Seq<Sample>
    decreases trail.len(),
{
    if trail.len() > 0 && is_stale(trail[0].0, now, window) {
        prune(trail.drop_first(), now, window)
    } else {
        trail
    }
}

/// The trail after recording the sample `(now, x, y)`.
pub open spec fn record(trail: Seq<Sample>, now: u128, x: i32, y: i32, window: u128) -> Seq<Sample> {
    prune(trail.push((now, x, y)), now, window)
}

/// Stroke statistics of the first `k` samples, as
/// (direction reversals, sign of the last long stroke, travelled path).
/// A step between consecutive samples is a stroke when its horizontal
/// component is at least `min_dx` px long; a reversal is a stroke whose
/// sign differs from the previous stroke's.
pub open spec fn strokes_upto(pts: Seq<Sample>, k: int, min_dx: int) -> (int, int, int)
    decreases k,
{
    if k < 2 {
        (0, 0, 0)
    } else {
        let prev = strokes_upto(pts, k - 1, min_dx);
        let dx = pts[k - 1].1 - pts[k - 2].1;
        let dy = pts[k - 1].2 - pts[k - 2].2;
        let path = prev.2 + abs_int(dx) + abs_int(dy);
        if abs_int(dx) >= min_dx {
            let s: int = if dx > 0 { 1 } else { -1 };
            let flips = if prev.1 != 0 && s != prev.1 { prev.0 + 1 } else { prev.0 };
            (flips, s, path)
        } else {
            (prev.0, prev.1, path)
        }
    }
}

/// Number of direction reversals along the whole trail.
pub open spec fn flips(pts: Seq<Sample>, min_dx: int) -> int {
    strokes_upto(pts, pts.len() as int, min_dx).0
}

/// Total pointer path (sum of |dx| + |dy| over consecutive samples).
pub open spec fn path_len(pts: Seq<Sample>) -> int {
    strokes_upto(pts, pts.len() as int, 0).2
}

/// Horizontal extent (min x, max x) over the first `k` samples and the
/// value `x`.
pub open spec fn x_extent_upto(pts: Seq<Sample>, k: int, x: int) -> (int, int)
    decreases k,
{
    if k < 1 {
        (x, x)
    } else {
        let prev = x_extent_upto(pts, k - 1, x);
        (min_int(prev.0, pts[k - 1].1 as int), max_int(prev.1, pts[k - 1].1 as int))
    }
}

/// The samples' horizontal coordinates never change direction: they are
/// all non-decreasing or all non-increasing along the trail.
pub open spec fn x_monotone(pts: Seq<Sample>) -> bool {
    (forall|i: int, j: int| 0 <= i <= j < pts.len() ==> pts[i].1 <= pts[j].1)
        || (forall|i: int, j: int| 0 <= i <= j < pts.len() ==> pts[i].1 >= pts[j].1)
}

proof fn lemma_monotone_strokes(pts: Seq<Sample>, k: int, min_dx: int, up: bool)
    requires
        min_dx >= 1,
        0 <= k <= pts.len(),
        up ==> forall|i: int, j: int| 0 <= i <= j < pts.len() ==> pts[i].1 <= pts[j].1,
        !up ==> forall|i: int, j: int| 0 <= i <= j < pts.len() ==> pts[i].1 >= pts[j].1,
    ensures
        strokes_upto(pts, k, min_dx).0 == 0,
        up ==> strokes_upto(pts, k, min_dx).1 == 0 || strokes_upto(pts, k, min_dx).1 == 1,
        !up ==> strokes_upto(pts, k, min_dx).1 == 0 || strokes_upto(pts, k, min_dx).1 == -1,
    decreases k,
{
    if k >= 2 {
        lemma_monotone_strokes(pts, k - 1, min_dx, up);
        assert(pts[k - 2].1 <= pts[k - 1].1 || !up);
        assert(pts[k - 2].1 >= pts[k - 1].1 || up);
    }
}

/// A trail whose horizontal coordinate never changes direction holds no
/// direction reversal, whatever the stroke threshold.
pub proof fn lemma_monotone_no_flips(pts: Seq<Sample>, min_dx: int)
    requires
        min_dx >= 1,
        x_monotone(pts),
    ensures
        flips(pts, min_dx) == 0,
{
    if forall|i: int, j: int| 0 <= i <= j < pts.len() ==> pts[i].1 <= pts[j].1 {
        lemma_monotone_strokes(pts, pts.len() as int, min_dx, true);
    } else {
        lemma_monotone_strokes(pts, pts.len() as int, min_dx, false);
    }
}

/// The path does not depend on the stroke threshold.
pub proof fn lemma_path_independent(pts: Seq<Sample>, k: int, m1: int, m2: int)
    ensures
        strokes_upto(pts, k, m1).2 == strokes_upto(pts, k, m2).2,
    decreases k,
{
    if k >= 2 {
        lemma_path_independent(pts, k - 1, m1, m2);
    }
}

proof fn lemma_strokes_bounds(pts: Seq<Sample>, k: int, min_dx: int)
    requires
        0 <= k <= pts.len(),
    ensures
        0 <= strokes_upto(pts, k, min_dx).0 <= k,
        0 <= strokes_upto(pts, k, min_dx).2 <= k * 0x2_0000_0000,
        -1 <= strokes_upto(pts, k, min_dx).1 <= 1,
    decreases k,
{
    if k >= 2 {
        lemma_strokes_bounds(pts, k - 1, min_dx);
    }
}

proof fn lemma_prune_suffix(trail: Seq<Sample>, now: u128, window: u128)
    ensures
        prune(trail, now, window).len() <= trail.len(),
        trail.len() > 0 && !is_stale(trail.last().0, now, window) ==> prune(trail, now, window).len() > 0
            && prune(trail, now, window).last() == trail.last(),
        exists|d: int|
            0 <= d <= trail.len() && #[trigger] prune(trail, now, window) == trail.subrange(d, trail.len() as int),
    decreases trail.len(),
{
    if trail.len() > 0 && is_stale(trail[0].0, now, window) {
        lemma_prune_suffix(trail.drop_first(), now, window);
        let d = choose|d: int|
            0 <= d <= trail.drop_first().len() && #[trigger] prune(trail.drop_first(), now, window)
                == trail.drop_first().subrange(d, trail.drop_first().len() as int);
        assert(trail.drop_first().subrange(d, trail.drop_first().len() as int) =~= trail.subrange(
            d + 1,
            trail.len() as int,
        ));
    } else {
        assert(trail.subrange(0, trail.len() as int) =~= trail);
    }
}

/// After recording a sample the trail ends with it, and its oldest sample
/// is within the window of `now`.
pub proof fn law_record_keeps_latest_and_fresh_front(trail: Seq<Sample>, now: u128, x: i32, y: i32, window: u128)
    ensures
        record(trail, now, x, y, window).len() > 0,
        record(trail, now, x, y, window).last() == (now, x, y),
        !is_stale(record(trail, now, x, y, window)[0].0, now, window),
{
    lemma_prune_suffix(trail.push((now, x, y)), now, window);
    lemma_prune_front_fresh(trail.push((now, x, y)), now, window);
}

proof fn lemma_prune_front_fresh(trail: Seq<Sample>, now: u128, window: u128)
    ensures
        prune(trail, now, window).len() > 0 ==> !is_stale(prune(trail, now, window)[0].0, now, window),
    decreases trail.len(),
{
    if trail.len() > 0 && is_stale(trail[0].0, now, window) {
        lemma_prune_front_fresh(trail.drop_first(), now, window);
    }
}

/// Append `(now, x, y)` to `trail` and drop the stale samples from its front.
pub fn record_sample(trail: &mut VecDeque<Sample>, now: u128, x: i32, y: i32, window: u128)
    ensures
        final(trail)@ == record(old(trail)@, now, x, y, window),
        final(trail)@.len() > 0,
        final(trail)@.last() == (now, x, y),
{
    trail.push_back((now, x, y));
    let ghost pushed = trail@;
    proof {
        lemma_prune_suffix(pushed, now, window);
    }
    while trail.len() > 0 && now > trail[0].0 && now - trail[0].0 > window
        invariant
            prune(trail@, now, window) == prune(pushed, now, window),
        decreases trail@.len(),
    {
        let ghost before = trail@;
        let _ = trail.pop_front();
        assert(trail@ =~= before.drop_first());
    }
}

/// Stroke statistics of a trail: (reversals, path, min x, max x), where the
/// reversals count strokes of at least `min_dx` px and the extent covers
/// every sample of the trail, together with `x`.
pub fn stroke_summary(trail: &VecDeque<Sample>, min_dx: i64, x: i32) -> (r: (u64, u128, i32, i32))
    requires
        min_dx >= 1,
    ensures
        r.0 == flips(trail@, min_dx as int),
        r.1 == path_len(trail@),
        r.2 == x_extent_upto(trail@, trail@.len() as int, x as int).0,
        r.3 == x_extent_upto(trail@, trail@.len() as int, x as int).1,
{
    let n = trail.len();
    let mut flips: u64 = 0;
    let mut last_sign: i64 = 0;
    let mut path: u128 = 0;
    let mut min_x: i32 = x;
    let mut max_x: i32 = x;
    if n > 0 {
        let first = trail[0].1;
        if first < min_x {
            min_x = first;
        }
        if first > max_x {
            max_x = first;
        }
    }
    let mut i: usize = 1;
    proof {
        lemma_path_independent(trail@, 1, min_dx as int, 0);
        if n > 0 {
            assert(x_extent_upto(trail@, 0, x as int) == (x as int, x as int));
            assert(x_extent_upto(trail@, 1, x as int) == (
                min_int(x as int, trail@[0].1 as int),
                max_int(x as int, trail@[0].1 as int),
            ));
        }
    }
    while i < n
        invariant
            n == trail@.len(),
            1 <= i,
            i <= n || (n == 0 && i == 1),
            flips == strokes_upto(trail@, i as int, min_dx as int).0,
            last_sign == strokes_upto(trail@, i as int, min_dx as int).1,
            path == strokes_upto(trail@, i as int, min_dx as int).2,
            min_x == x_extent_upto(trail@, if n == 0 { 0 } else { i as int }, x as int).0,
            max_x == x_extent_upto(trail@, if n == 0 { 0 } else { i as int }, x as int).1,
        decreases n - i,
    {
        proof {
            lemma_strokes_bounds(trail@, i as int, min_dx as int);
            lemma_strokes_bounds(trail@, i + 1, min_dx as int);
            assert((i + 1) * 0x2_0000_0000 <= 0x2_0000_0000 * 0x1_0000_0000_0000_0000) by (nonlinear_arith)
                requires i + 1 <= 0x1_0000_0000_0000_0000;
        }
        let a = trail[i - 1];
        let b = trail[i];
        let dx: i64 = b.1 as i64 - a.1 as i64;
        let dy: i64 = b.2 as i64 - a.2 as i64;
        let adx: u64 = if dx < 0 { (-dx) as u64 } else { dx as u64 };
        let ady: u64 = if dy < 0 { (-dy) as u64 } else { dy as u64 };
        path = path + adx as u128 + ady as u128;
        if adx as i64 >= min_dx {
            let s: i64 = if dx > 0 { 1 } else { -1 };
            if last_sign != 0 && s != last_sign {
                flips = flips + 1;
            }
            last_sign = s;
        }
        if b.1 < min_x {
            min_x = b.1;
        }
        if b.1 > max_x {
            max_x = b.1;
        }
        i = i + 1;
    }
    proof {
        lemma_path_independent(trail@, n as int, min_dx as int, 0);
        if n == 0 {
            assert(strokes_upto(trail@, 0, min_dx as int) == strokes_upto(trail@, 1, min_dx as int));
        }
    }
    (flips, path, min_x, max_x)
}

} // verus!
