//! Plain geometry and text helpers shared by the window-owning parts of the
//! core: monitor rectangles, the primary-monitor choice, and NUL-terminated
//! UTF-16 encoding of window titles and class names.

use vstd::prelude::*;

verus! {

/// Physical pixel geometry of one monitor.
#[derive(Debug, Clone, Copy, PartialEq, Eq, Structural)]
pub struct MonitorRect {
    pub x: i32,
    pub y: i32,
    pub w: i32,
    pub h: i32,
    /// True for the primary monitor.
    pub primary: bool,
}

/// The monitor assumed when none is reported.
pub open spec fn fallback_monitor() -> MonitorRect {
    MonitorRect { x: 0, y: 0, w: 1920, h: 1080, primary: true }
}

/// The primary monitor among the enumerated `mons` (the first one flagged
/// primary); failing that the first enumerated monitor; with none at all,
/// a 1920x1080 monitor at the origin.
pub fn primary_monitor(mons: &Vec<MonitorRect>) -> (r: MonitorRect)
    ensures
        (exists|i: int| 0 <= i < mons@.len() && mons@[i].primary) ==> (exists|i: int|
            0 <= i < mons@.len() && mons@[i].primary && (forall|j: int| 0 <= j < i ==> !mons@[j].primary)
                && r == mons@[i]),
        (forall|i: int| 0 <= i < mons@.len() ==> !mons@[i].primary) ==> r == (if mons@.len() > 0 {
            mons@[0]
        } else {
            fallback_monitor()
        }),
{
    let mut i: usize = 0;
    while i < mons.len()
        invariant
            i <= mons@.len(),
            forall|j: int| 0 <= j < i ==> !mons@[j].primary,
        decreases mons@.len() - i,
    {
        if mons[i].primary {
            return mons[i];
        }
        i = i + 1;
    }
    if mons.len() > 0 {
        mons[0]
    } else {
        MonitorRect { x: 0, y: 0, w: 1920, h: 1080, primary: true }
    }
}

/// (x, y) lies inside the monitor (left/top edges inclusive).
pub open spec fn in_monitor(m: MonitorRect, x: int, y: int) -> bool {
    m.x <= x < m.x + m.w && m.y <= y < m.y + m.h
}

/// Whether (x, y) lies inside `m` (left/top edges inclusive).
pub fn point_in_monitor(m: &MonitorRect, x: i32, y: i32) -> (r: bool)
    ensures
        r == in_monitor(*m, x as int, y as int),
{
    let right: i64 = m.x as i64 + m.w as i64;
    let bottom: i64 = m.y as i64 + m.h as i64;
    x >= m.x && (x as i64) < right && y >= m.y && (y as i64) < bottom
}

/// Integer halving rounded toward zero (Rust's `/ 2` on signed integers).
pub open spec fn half(a: int) -> int {
    if a >= 0 { a / 2 } else { -((-a) / 2) }
}

/// `a / 2` rounded toward zero, for any `i32`.
pub fn half_i32(a: i32) -> (r: i32)
    ensures
        r == half(a as int),
{
    if a >= 0 {
        a / 2
    } else {
        let b: i64 = -(a as i64);
        (-(b / 2)) as i32
    }
}

/// UTF-16 code units of one character.
pub open spec fn utf16_units(c: char) -> Seq<u16> {
    let v = c as int;
    if v < 0x10000 {
        seq![v as u16]
    } else {
        let u = v - 0x10000;
        seq![(0xD800 + u / 0x400) as u16, (0xDC00 + u % 0x400) as u16]
    }
}

/// UTF-16 encoding of a character sequence.
pub open spec fn utf16(s: Seq<char>) -> Seq<u16>
    decreases s.len(),
{
    if s.len() == 0 {
        Seq::empty()
    } else {
        utf16(s.drop_last()) + utf16_units(s.last())
    }
}

/// `s` as UTF-16 followed by a terminating NUL unit, the form Win32 wide
/// string parameters take.
pub fn wide_null(s: &str) -> (r: Vec<u16>)
    ensures
        r@ == utf16(s@).push(0u16),
{
    let mut out: Vec<u16> = Vec::new();
    let n = s.unicode_len();
    let mut i: usize = 0;
    while i < n
        invariant
            n == s@.len(),
            i <= n,
            out@ == utf16(s@.take(i as int)),
        decreases n - i,
    {
        let c = s.get_char(i);
        let v: u32 = c as u32;
        if v < 0x10000 {
            out.push(v as u16);
        } else {
            let u: u32 = v - 0x10000;
            out.push((0xD800 + u / 0x400) as u16);
            out.push((0xDC00 + u % 0x400) as u16);
        }
        proof {
            assert(s@.take(i + 1).drop_last() =~= s@.take(i as int));
        }
        i = i + 1;
    }
    proof {
        assert(s@.take(n as int) =~= s@);
    }
    out.push(0u16);
    out
}

} // verus!
