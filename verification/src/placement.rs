//! Where the toolbar window goes: the screen under the cursor, then a spot
//! beside the cursor that keeps the window on that screen.
use vstd::prelude::*;

verus! {

/// Width of the toolbar window in physical pixels.
pub const WINDOW_WIDTH: i32 = 350;

/// Height of the toolbar window in physical pixels.
pub const WINDOW_HEIGHT: i32 = 40;

/// Gap between the cursor and the toolbar window.
pub const MARGIN: i32 = 10;

/// Screen assumed when no monitor is known at all.
pub const FALLBACK_WIDTH: i32 = 1920;

/// Screen assumed when no monitor is known at all.
pub const FALLBACK_HEIGHT: i32 = 1080;

/// A monitor as the windowing system reports it: its top-left corner and its size.
#[derive(Clone, Copy, Debug, PartialEq, Eq)]
pub struct Monitor {
    pub x: i32,
    pub y: i32,
    pub width: u32,
    pub height: u32,
}

/// A rectangle of the virtual desktop, with the size in signed pixels.
#[derive(Clone, Copy, Debug, PartialEq, Eq)]
pub struct ScreenRect {
    pub x: i32,
    pub y: i32,
    pub width: i32,
    pub height: i32,
}

/// Whether an integer fits in an `i32`.
pub open spec fn fits_i32(v: int) -> bool {
    i32::MIN <= v <= i32::MAX
}

/// The monitor's area, its size taken as a signed number the way `as i32` converts it.
pub open spec fn monitor_area(m: Monitor) -> ScreenRect {
    ScreenRect { x: m.x, y: m.y, width: m.width as i32, height: m.height as i32 }
}

/// Whether the cursor lies on the rectangle (left and top edges included).
pub open spec fn covers(r: ScreenRect, mx: i32, my: i32) -> bool {
    &&& r.x <= mx
    &&& mx < r.x + r.width
    &&& r.y <= my
    &&& my < r.y + r.height
}

/// The sums that the cover test on `r` evaluates, in the order it evaluates them,
/// stay within `i32`.
pub open spec fn cover_test_fits(r: ScreenRect, mx: i32, my: i32) -> bool {
    &&& r.x <= mx ==> fits_i32(r.x + r.width)
    &&& (r.x <= mx && mx < r.x + r.width && r.y <= my) ==> fits_i32(r.y + r.height)
}

/// The first monitor, from index `i` on, that the cursor lies on.
pub open spec fn first_covering(monitors: Seq<Monitor>, mx: i32, my: i32, i: int) -> Option<
    ScreenRect,
>
    decreases monitors.len() - i,
{
    if i < 0 || i >= monitors.len() {
        None
    } else if covers(monitor_area(monitors[i]), mx, my) {
        Some(monitor_area(monitors[i]))
    } else {
        first_covering(monitors, mx, my, i + 1)
    }
}

/// The cover test stays within `i32` on each monitor it is run on, from index `i`
/// up to the first one that the cursor lies on.
pub open spec fn search_fits(monitors: Seq<Monitor>, mx: i32, my: i32, i: int) -> bool
    decreases monitors.len() - i,
{
    if i < 0 || i >= monitors.len() {
        true
    } else {
        &&& cover_test_fits(monitor_area(monitors[i]), mx, my)
        &&& (covers(monitor_area(monitors[i]), mx, my) || search_fits(monitors, mx, my, i + 1))
    }
}

/// The screen the toolbar is placed on: the first monitor under the cursor, else the
/// primary monitor, else a 1920 x 1080 screen at the origin.
pub open spec fn chosen_screen(
    monitors: Seq<Monitor>,
    primary: Option<Monitor>,
    mx: i32,
    my: i32,
) -> ScreenRect {
    match first_covering(monitors, mx, my, 0) {
        Some(r) => r,
        None => match primary {
            Some(p) => monitor_area(p),
            None => ScreenRect { x: 0, y: 0, width: FALLBACK_WIDTH, height: FALLBACK_HEIGHT },
        },
    }
}

/// The differences and sums of the placement stay within `i32`.
pub open spec fn placement_fits(screen: ScreenRect, mx: i32, my: i32) -> bool {
    let right = screen.x + screen.width;
    let bottom = screen.y + screen.height;
    &&& fits_i32(right)
    &&& fits_i32(right - mx)
    &&& (right - mx < WINDOW_WIDTH + MARGIN ==> fits_i32(right - WINDOW_WIDTH))
    &&& fits_i32(bottom)
    &&& fits_i32(bottom - my)
    &&& (bottom - my < WINDOW_HEIGHT + MARGIN ==> fits_i32(bottom - WINDOW_HEIGHT))
}

/// Left edge of the toolbar: beside the cursor when the window and the margin fit to
/// its right, else flush with the screen's right edge.
pub open spec fn toolbar_x(screen: ScreenRect, mx: i32) -> int {
    let right = screen.x + screen.width;
    if right - mx >= WINDOW_WIDTH + MARGIN {
        mx + MARGIN
    } else {
        right - WINDOW_WIDTH
    }
}

/// Top edge of the toolbar: below the cursor when the window and the margin fit under
/// it, else flush with the screen's bottom edge.
pub open spec fn toolbar_y(screen: ScreenRect, my: i32) -> int {
    let bottom = screen.y + screen.height;
    if bottom - my >= WINDOW_HEIGHT + MARGIN {
        my + MARGIN
    } else {
        bottom - WINDOW_HEIGHT
    }
}

/// The monitor's area, with its size converted to signed pixels.
pub fn monitor_rect(m: &Monitor) -> (r: ScreenRect)
    ensures
        r == monitor_area(*m),
{
    ScreenRect { x: m.x, y: m.y, width: m.width as i32, height: m.height as i32 }
}

/// Whether the cursor lies on `r`, evaluated in `i32` as the test is written.
fn rect_covers(r: &ScreenRect, mx: i32, my: i32) -> (b: bool)
    requires
        cover_test_fits(*r, mx, my),
    ensures
        b == covers(*r, mx, my),
{
    mx >= r.x && mx < r.x + r.width && my >= r.y && my < r.y + r.height
}

/// The screen to place the toolbar on, for the cursor at `(mx, my)`: the first of
/// `monitors` that the cursor lies on, else `primary`, else a 1920 x 1080 screen at
/// the origin.
pub fn select_screen(monitors: &[Monitor], primary: Option<Monitor>, mx: i32, my: i32) -> (r:
    ScreenRect)
    requires
        search_fits(monitors@, mx, my, 0),
    ensures
        r == chosen_screen(monitors@, primary, mx, my),
{
    let n = monitors.len();
    let mut i: usize = 0;
    while i < n
        invariant
            n == monitors@.len(),
            i <= n,
            first_covering(monitors@, mx, my, 0) == first_covering(monitors@, mx, my, i as int),
            search_fits(monitors@, mx, my, i as int),
        decreases n - i,
    {
        let area = monitor_rect(&monitors[i]);
        if rect_covers(&area, mx, my) {
            return area;
        }
        i = i + 1;
    }
    match primary {
        Some(p) => monitor_rect(&p),
        None => ScreenRect { x: 0, y: 0, width: FALLBACK_WIDTH, height: FALLBACK_HEIGHT },
    }
}

/// Top-left corner of the toolbar on `screen` for the cursor at `(mx, my)`.
pub fn toolbar_position(screen: ScreenRect, mx: i32, my: i32) -> (r: (i32, i32))
    requires
        placement_fits(screen, mx, my),
    ensures
        r.0 == toolbar_x(screen, mx),
        r.1 == toolbar_y(screen, my),
        r.0 + WINDOW_WIDTH <= screen.x + screen.width,
        r.1 + WINDOW_HEIGHT <= screen.y + screen.height,
{
    let screen_right = screen.x + screen.width;
    let right_space = screen_right - mx;
    let pos_x: i32 = if right_space >= WINDOW_WIDTH + MARGIN {
        mx + MARGIN
    } else {
        screen_right - WINDOW_WIDTH
    };
    let screen_bottom = screen.y + screen.height;
    let bottom_space = screen_bottom - my;
    let pos_y: i32 = if bottom_space >= WINDOW_HEIGHT + MARGIN {
        my + MARGIN
    } else {
        screen_bottom - WINDOW_HEIGHT
    };
    (pos_x, pos_y)
}

/// Top-left corner of the toolbar for the cursor at `(mx, my)`, given the monitors
/// and the primary monitor that the windowing system reports.
pub fn place_toolbar(monitors: &[Monitor], primary: Option<Monitor>, mx: i32, my: i32) -> (r: (
    i32,
    i32,
))
    requires
        search_fits(monitors@, mx, my, 0),
        placement_fits(chosen_screen(monitors@, primary, mx, my), mx, my),
    ensures
        r.0 == toolbar_x(chosen_screen(monitors@, primary, mx, my), mx),
        r.1 == toolbar_y(chosen_screen(monitors@, primary, mx, my), my),
{
    let screen = select_screen(monitors, primary, mx, my);
    toolbar_position(screen, mx, my)
}

/// Whether `v` fits in an `i32`, for a `v` computed in `i64`.
fn fits_i32_check(v: i64) -> (b: bool)
    ensures
        b == fits_i32(v as int),
{
    i32::MIN as i64 <= v && v <= i32::MAX as i64
}

/// Whether the cursor lies on `r`, computed without overflow.
fn covers_check(r: &ScreenRect, mx: i32, my: i32) -> (b: bool)
    ensures
        b == covers(*r, mx, my),
{
    let right = r.x as i64 + r.width as i64;
    let bottom = r.y as i64 + r.height as i64;
    r.x <= mx && (mx as i64) < right && r.y <= my && (my as i64) < bottom
}

/// Whether the cover test on `r` stays within `i32`.
fn cover_test_fits_check(r: &ScreenRect, mx: i32, my: i32) -> (b: bool)
    ensures
        b == cover_test_fits(*r, mx, my),
{
    let right = r.x as i64 + r.width as i64;
    let bottom = r.y as i64 + r.height as i64;
    let right_fits = fits_i32_check(right);
    let bottom_fits = fits_i32_check(bottom);
    (!(r.x <= mx) || right_fits) && (!(r.x <= mx && (mx as i64) < right && r.y <= my)
        || bottom_fits)
}

/// Whether the placement on `screen` stays within `i32`.
fn placement_fits_check(screen: &ScreenRect, mx: i32, my: i32) -> (b: bool)
    ensures
        b == placement_fits(*screen, mx, my),
{
    let right = screen.x as i64 + screen.width as i64;
    let bottom = screen.y as i64 + screen.height as i64;
    let dx = right - mx as i64;
    let dy = bottom - my as i64;
    fits_i32_check(right) && fits_i32_check(dx) && (!(dx < (WINDOW_WIDTH + MARGIN) as i64)
        || fits_i32_check(right - WINDOW_WIDTH as i64)) && fits_i32_check(bottom)
        && fits_i32_check(dy) && (!(dy < (WINDOW_HEIGHT + MARGIN) as i64) || fits_i32_check(
        bottom - WINDOW_HEIGHT as i64,
    ))
}

/// Whether `place_toolbar` can run on these inputs: every sum and difference that it
/// computes in `i32` fits there.
pub fn can_place_toolbar(monitors: &[Monitor], primary: Option<Monitor>, mx: i32, my: i32) -> (b:
    bool)
    ensures
        b == (search_fits(monitors@, mx, my, 0) && placement_fits(
            chosen_screen(monitors@, primary, mx, my),
            mx,
            my,
        )),
{
    let n = monitors.len();
    let mut i: usize = 0;
    let mut found: Option<ScreenRect> = None;
    while i < n
        invariant_except_break
            found is None,
            first_covering(monitors@, mx, my, 0) == first_covering(monitors@, mx, my, i as int),
            search_fits(monitors@, mx, my, 0) == search_fits(monitors@, mx, my, i as int),
        invariant
            n == monitors@.len(),
            i <= n,
        ensures
            i <= n,
            found is None ==> first_covering(monitors@, mx, my, 0) == first_covering(
                monitors@,
                mx,
                my,
                i as int,
            ) && search_fits(monitors@, mx, my, 0) == search_fits(monitors@, mx, my, i as int)
                && i == n,
            found matches Some(r) ==> first_covering(monitors@, mx, my, 0) == Some(r)
                && search_fits(monitors@, mx, my, 0),
        decreases n - i,
    {
        let area = monitor_rect(&monitors[i]);
        if !cover_test_fits_check(&area, mx, my) {
            return false;
        }
        if covers_check(&area, mx, my) {
            found = Some(area);
            break;
        }
        i = i + 1;
    }
    let screen = match found {
        Some(r) => r,
        None => match primary {
            Some(p) => monitor_rect(&p),
            None => ScreenRect { x: 0, y: 0, width: FALLBACK_WIDTH, height: FALLBACK_HEIGHT },
        },
    };
    placement_fits_check(&screen, mx, my)
}

/// When the cursor is on the chosen screen and the screen is at least as large as
/// the toolbar, the whole toolbar lies on that screen.
pub proof fn lemma_toolbar_on_screen(screen: ScreenRect, mx: i32, my: i32)
    requires
        covers(screen, mx, my),
        screen.width >= WINDOW_WIDTH,
        screen.height >= WINDOW_HEIGHT,
    ensures
        screen.x <= toolbar_x(screen, mx),
        toolbar_x(screen, mx) + WINDOW_WIDTH <= screen.x + screen.width,
        screen.y <= toolbar_y(screen, my),
        toolbar_y(screen, my) + WINDOW_HEIGHT <= screen.y + screen.height,
{
}

/// The toolbar is either the margin away from the cursor, or flush with the screen
/// edge because there is no room beside the cursor.
pub proof fn lemma_toolbar_beside_or_flush(screen: ScreenRect, mx: i32, my: i32)
    ensures
        toolbar_x(screen, mx) == mx + MARGIN || (toolbar_x(screen, mx) + WINDOW_WIDTH
            == screen.x + screen.width && screen.x + screen.width - mx < WINDOW_WIDTH
            + MARGIN),
        toolbar_y(screen, my) == my + MARGIN || (toolbar_y(screen, my) + WINDOW_HEIGHT
            == screen.y + screen.height && screen.y + screen.height - my < WINDOW_HEIGHT
            + MARGIN),
{
}

/// The chosen screen is one that the cursor lies on whenever some monitor lies under it.
pub proof fn lemma_chosen_screen_under_cursor(monitors: Seq<Monitor>, primary: Option<Monitor>, mx: i32, my: i32, k: int)
    requires
        0 <= k < monitors.len(),
        covers(monitor_area(monitors[k]), mx, my),
    ensures
        covers(chosen_screen(monitors, primary, mx, my), mx, my),
        exists|j: int| 0 <= j <= k && chosen_screen(monitors, primary, mx, my) == monitor_area(#[trigger] monitors[j]),
{
    lemma_first_covering_found(monitors, mx, my, 0, k);
}

proof fn lemma_first_covering_found(monitors: Seq<Monitor>, mx: i32, my: i32, i: int, k: int)
    requires
        0 <= i <= k < monitors.len(),
        covers(monitor_area(monitors[k]), mx, my),
    ensures
        first_covering(monitors, mx, my, i) is Some,
        covers(first_covering(monitors, mx, my, i)->0, mx, my),
        exists|j: int| i <= j <= k && first_covering(monitors, mx, my, i)->0 == monitor_area(#[trigger] monitors[j]),
    decreases k - i,
{
    if !covers(monitor_area(monitors[i]), mx, my) {
        lemma_first_covering_found(monitors, mx, my, i + 1, k);
    }
}

} // verus!
