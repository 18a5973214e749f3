use context_password::platform::place::{place_within, Rect};
/// A 1920x1080 monitor at (0,0) with a 40px taskbar docked at the
/// bottom — the work area excludes it, which is what `place_within`
/// always receives.
const WORK: Rect = Rect {
    left: 0,
    top: 0,
    right: 1920,
    bottom: 1040,
};
const W: i32 = 340;
const H: i32 = 220;
const OFFSET: i32 = 8;

#[test]
fn offsets_down_right_when_it_fits() {
    let (x, y) = place_within(WORK, Some((500, 500)), W, H, OFFSET);
    assert_eq!((x, y), (508, 508));
}

#[test]
fn flips_left_near_the_right_edge() {
    // cursor 100px from the right edge — offset+width would overrun it.
    let cursor = (WORK.right - 100, 500);
    let (x, _y) = place_within(WORK, Some(cursor), W, H, OFFSET);
    assert_eq!(x, cursor.0 - W - OFFSET, "should flip to the left of the cursor");
    assert!(x + W <= WORK.right, "must not run past the right edge");
}

#[test]
fn flips_up_near_the_bottom_edge() {
    // cursor 100px from the bottom of the *work area* (above the
    // taskbar) — offset+height would overrun it.
    let cursor = (500, WORK.bottom - 100);
    let (_x, y) = place_within(WORK, Some(cursor), W, H, OFFSET);
    assert_eq!(y, cursor.1 - H - OFFSET, "should flip above the cursor");
    assert!(y + H <= WORK.bottom, "must not run under the taskbar");
}

#[test]
fn flips_both_axes_in_the_bottom_right_corner() {
    let cursor = (WORK.right - 5, WORK.bottom - 5);
    let (x, y) = place_within(WORK, Some(cursor), W, H, OFFSET);
    assert!(x + W <= WORK.right);
    assert!(y + H <= WORK.bottom);
    assert!(x >= WORK.left);
    assert!(y >= WORK.top);
}

#[test]
fn clamps_when_pinned_exactly_in_the_top_left_corner() {
    // Flipping left/up from (0,0) would go negative; the clamp must
    // catch what the flip alone can't.
    let (x, y) = place_within(WORK, Some((0, 0)), W, H, OFFSET);
    assert!(x >= WORK.left);
    assert!(y >= WORK.top);
}

#[test]
fn clamps_without_panicking_when_popup_is_bigger_than_the_monitor() {
    let tiny_work = Rect {
        left: 0,
        top: 0,
        right: 200,
        bottom: 150,
    };
    let (x, y) = place_within(tiny_work, Some((100, 100)), W, H, OFFSET);
    // Can't satisfy "fully on screen" here — just must not panic, and
    // must not drift left/above the monitor entirely.
    assert!(x >= tiny_work.left);
    assert!(y >= tiny_work.top);
}

#[test]
fn centers_on_the_work_area_when_there_is_no_cursor() {
    let (x, y) = place_within(WORK, None, W, H, OFFSET);
    assert_eq!(x, (WORK.right - W) / 2);
    assert_eq!(y, (WORK.bottom - H) / 2);
}
