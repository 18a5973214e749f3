//! The flip-then-clamp popup placement, in physical pixels, with no OS
//! calls. Each platform turns its monitor geometry into a top-left-origin
//! [`Rect`] before calling [`place_within`].

use vstd::prelude::*;

verus! {

/// A monitor's work area, in top-left-origin physical pixels.
#[derive(Debug, Clone, Copy, PartialEq, Eq)]
pub struct Rect {
    pub left: i32,
    pub top: i32,
    pub right: i32,
    pub bottom: i32,
}

pub open spec fn fits_i32(v: int) -> bool {
    i32::MIN <= v <= i32::MAX
}

/// Integer division by two, rounding toward zero (`i32 / 2`).
pub open spec fn half(v: int) -> int {
    if v >= 0 {
        v / 2
    } else {
        -((-v) / 2)
    }
}

pub open spec fn clamp_int(v: int, lo: int, hi: int) -> int {
    if v < lo {
        lo
    } else if v > hi {
        hi
    } else {
        v
    }
}

pub open spec fn max_int(a: int, b: int) -> int {
    if a >= b {
        a
    } else {
        b
    }
}

/// The unclamped position: offset down-right from the cursor, flipped to
/// the other side of it on an axis where that would run past the work
/// area; centered when there is no cursor.
pub open spec fn naive_position(work: Rect, cursor: Option<(i32, i32)>, w: i32, h: i32, offset: i32) -> (int, int) {
    match cursor {
        Some((cx, cy)) => {
            let x = if cx + offset + w > work.right {
                cx - w - offset
            } else {
                cx + offset
            };
            let y = if cy + offset + h > work.bottom {
                cy - h - offset
            } else {
                cy + offset
            };
            (x, y)
        },
        None => (
            work.left + half(work.right - work.left - w),
            work.top + half(work.bottom - work.top - h),
        ),
    }
}

/// Where the popup's top-left corner goes: the naive position, clamped
/// fully inside the work area as a last resort.
pub open spec fn place_spec(work: Rect, cursor: Option<(i32, i32)>, w: i32, h: i32, offset: i32) -> (int, int) {
    let (x, y) = naive_position(work, cursor, w, h, offset);
    (
        clamp_int(x, work.left as int, max_int(work.right - w, work.left as int)),
        clamp_int(y, work.top as int, max_int(work.bottom - h, work.top as int)),
    )
}

/// Every intermediate value of the placement fits in an `i32`.
pub open spec fn place_fits(work: Rect, cursor: Option<(i32, i32)>, w: i32, h: i32, offset: i32) -> bool {
    &&& fits_i32(work.right - w)
    &&& fits_i32(work.bottom - h)
    &&& match cursor {
        Some((cx, cy)) => {
            &&& fits_i32(cx + offset)
            &&& fits_i32(cy + offset)
            &&& fits_i32(cx + offset + w)
            &&& fits_i32(cy + offset + h)
            &&& (cx + offset + w > work.right ==> fits_i32(cx - w) && fits_i32(cx - w - offset))
            &&& (cy + offset + h > work.bottom ==> fits_i32(cy - h) && fits_i32(cy - h - offset))
        },
        None => {
            &&& fits_i32(work.right - work.left)
            &&& fits_i32(work.right - work.left - w)
            &&& fits_i32(work.bottom - work.top)
            &&& fits_i32(work.bottom - work.top - h)
            &&& fits_i32(work.left + half(work.right - work.left - w))
            &&& fits_i32(work.top + half(work.bottom - work.top - h))
        },
    }
}

fn half_i64(v: i64) -> (r: i64)
    requires
        v > i64::MIN,
    ensures
        r == half(v as int),
{
    if v >= 0 {
        v / 2
    } else {
        -((-v) / 2)
    }
}

fn clamp_i64(v: i64, lo: i64, hi: i64) -> (r: i64)
    ensures
        r == clamp_int(v as int, lo as int, hi as int),
{
    if v < lo {
        lo
    } else if v > hi {
        hi
    } else {
        v
    }
}

/// Offsets the popup down-right from the cursor, flips it to the other
/// side of the cursor on an axis where it would run past the work area,
/// then clamps it inside as a last resort. With no cursor, centers it.
pub fn place_within(work: Rect, cursor: Option<(i32, i32)>, w: i32, h: i32, offset: i32) -> (r: (i32, i32))
    requires
        place_fits(work, cursor, w, h, offset),
    ensures
        (r.0 as int, r.1 as int) == place_spec(work, cursor, w, h, offset),
{
    let left = work.left as i64;
    let top = work.top as i64;
    let right = work.right as i64;
    let bottom = work.bottom as i64;
    let (w, h, offset) = (w as i64, h as i64, offset as i64);
    let (x, y) = match cursor {
        Some((cx, cy)) => {
            let (cx, cy) = (cx as i64, cy as i64);
            let mut x = cx + offset;
            let mut y = cy + offset;
            if x + w > right {
                x = cx - w - offset;
            }
            if y + h > bottom {
                y = cy - h - offset;
            }
            (x, y)
        },
        None => (left + half_i64(right - left - w), top + half_i64(bottom - top - h)),
    };
    let x_hi = if right - w >= left {
        right - w
    } else {
        left
    };
    let y_hi = if bottom - h >= top {
        bottom - h
    } else {
        top
    };
    let x = clamp_i64(x, left, x_hi);
    let y = clamp_i64(y, top, y_hi);
    (x as i32, y as i32)
}

/// The placed popup never starts left of or above the work area, and,
/// whenever it fits in the work area, never runs past its right or bottom
/// edge either.
pub proof fn lemma_placement_stays_on_screen(
    work: Rect,
    cursor: Option<(i32, i32)>,
    w: i32,
    h: i32,
    offset: i32,
)
    ensures
        place_spec(work, cursor, w, h, offset).0 >= work.left,
        place_spec(work, cursor, w, h, offset).1 >= work.top,
        work.left + w <= work.right ==> place_spec(work, cursor, w, h, offset).0 + w <= work.right,
        work.top + h <= work.bottom ==> place_spec(work, cursor, w, h, offset).1 + h
            <= work.bottom,
{
}

/// With room on both axes, the popup sits exactly `offset` down-right of
/// the cursor.
pub proof fn lemma_placement_offsets_when_it_fits(
    work: Rect,
    cx: i32,
    cy: i32,
    w: i32,
    h: i32,
    offset: i32,
)
    requires
        work.left <= cx + offset,
        work.top <= cy + offset,
        cx + offset + w <= work.right,
        cy + offset + h <= work.bottom,
    ensures
        place_spec(work, Some((cx, cy)), w, h, offset) == (cx + offset, cy + offset),
{
}

} // verus!
