//! The recording overlay: a red frame drawn around the recorded region with
//! a stop button above it.
use vstd::prelude::*;

use crate::region::Region;
use crate::text::chars_of;

verus! {

broadcast use vstd::string::group_string_axioms;

/// The thickness of the frame, in pixels.
pub const BORDER_WIDTH: i32 = 4;

/// The height of the strip above the frame that holds the stop button.
pub const BUTTON_AREA_HEIGHT: i32 = 40;

/// Size and position of the overlay window.
#[derive(Debug, Clone, Copy)]
pub struct OverlayLayout {
    /// Window width: the region plus the frame on both sides.
    pub width: i32,
    /// Window height: the region plus the frame above and below plus the
    /// button strip.
    pub height: i32,
    /// Distance from the top edge of the output (the window is anchored top
    /// left): the frame and the button strip sit above the region.
    pub margin_top: i32,
    /// Distance from the left edge of the output: the frame sits left of the
    /// region.
    pub margin_left: i32,
}

/// A rectangle to fill, in window coordinates.
#[derive(Debug, Clone, Copy, PartialEq, Eq)]
pub struct Rect {
    pub x: i64,
    pub y: i64,
    pub width: i64,
    pub height: i64,
}

/// The window layout for a region, computed in `i32` as the window toolkit
/// takes it: the region's coordinates and size converted with `as i32`.
pub open spec fn layout_of(region: Region) -> OverlayLayout {
    OverlayLayout {
        width: ((region.width as i32) + 2 * BORDER_WIDTH) as i32,
        height: ((region.height as i32) + 2 * BORDER_WIDTH + BUTTON_AREA_HEIGHT) as i32,
        margin_top: ((region.y as i32) - BORDER_WIDTH - BUTTON_AREA_HEIGHT) as i32,
        margin_left: ((region.x as i32) - BORDER_WIDTH) as i32,
    }
}

/// The layout computation stays within `i32`.
pub open spec fn layout_fits(region: Region) -> bool {
    &&& (region.width as i32) + 2 * BORDER_WIDTH <= i32::MAX
    &&& (region.height as i32) + 2 * BORDER_WIDTH + BUTTON_AREA_HEIGHT <= i32::MAX
    &&& (region.y as i32) - BORDER_WIDTH - BUTTON_AREA_HEIGHT >= i32::MIN
    &&& (region.x as i32) - BORDER_WIDTH >= i32::MIN
}

/// The overlay window's size and position for `region`.
pub fn overlay_layout(region: Region) -> (l: OverlayLayout)
    requires
        layout_fits(region),
    ensures
        l == layout_of(region),
{
    let rw = region.width as i32;
    let rh = region.height as i32;
    let rx = region.x as i32;
    let ry = region.y as i32;
    OverlayLayout {
        width: rw + BORDER_WIDTH * 2,
        height: rh + BORDER_WIDTH * 2 + BUTTON_AREA_HEIGHT,
        margin_top: ry - BORDER_WIDTH - BUTTON_AREA_HEIGHT,
        margin_left: rx - BORDER_WIDTH,
    }
}

/// The four bars of the frame, below the button strip: top, bottom, left,
/// right. Together they enclose exactly the region's pixels.
pub open spec fn frame_of(region: Region) -> Seq<Rect> {
    let w = region.width as int;
    let h = region.height as int;
    let b = BORDER_WIDTH as int;
    let top = BUTTON_AREA_HEIGHT as int;
    seq![
        Rect { x: 0, y: top as i64, width: (w + 2 * b) as i64, height: b as i64 },
        Rect { x: 0, y: (top + h + b) as i64, width: (w + 2 * b) as i64, height: b as i64 },
        Rect { x: 0, y: top as i64, width: b as i64, height: (h + 2 * b) as i64 },
        Rect { x: (w + b) as i64, y: top as i64, width: b as i64, height: (h + 2 * b) as i64 },
    ]
}

/// The rectangles that draw the frame around `region`.
pub fn frame_rects(region: Region) -> (rects: Vec<Rect>)
    ensures
        rects@ == frame_of(region),
{
    let w = region.width as i64;
    let h = region.height as i64;
    let b = BORDER_WIDTH as i64;
    let top = BUTTON_AREA_HEIGHT as i64;
    let rects = vec![
        Rect { x: 0, y: top, width: w + 2 * b, height: b },
        Rect { x: 0, y: top + h + b, width: w + 2 * b, height: b },
        Rect { x: 0, y: top, width: b, height: h + 2 * b },
        Rect { x: w + b, y: top, width: b, height: h + 2 * b },
    ];
    assert(rects@ =~= frame_of(region));
    rects
}

/// The pixel `(px, py)` lies in `r`.
pub open spec fn in_rect(r: Rect, px: int, py: int) -> bool {
    r.x <= px < r.x + r.width && r.y <= py < r.y + r.height
}

/// The pixel lies in one of the rectangles.
pub open spec fn covered(rects: Seq<Rect>, px: int, py: int) -> bool {
    exists|i: int| 0 <= i < rects.len() && in_rect(#[trigger] rects[i], px, py)
}

/// The frame is a border of `BORDER_WIDTH` pixels around the region: below
/// the button strip, a pixel of the window is painted exactly when it lies
/// outside the region's own pixels, which stay clear.
pub proof fn lemma_frame_encloses_region(region: Region, px: int, py: int)
    requires
        0 <= px < region.width + 2 * BORDER_WIDTH,
        BUTTON_AREA_HEIGHT <= py < BUTTON_AREA_HEIGHT + region.height + 2 * BORDER_WIDTH,
    ensures
        covered(frame_of(region), px, py) <==> !(BORDER_WIDTH <= px < BORDER_WIDTH + region.width
            && BUTTON_AREA_HEIGHT + BORDER_WIDTH <= py < BUTTON_AREA_HEIGHT + BORDER_WIDTH
            + region.height),
{
    let f = frame_of(region);
    let inside = BORDER_WIDTH <= px < BORDER_WIDTH + region.width && BUTTON_AREA_HEIGHT
        + BORDER_WIDTH <= py < BUTTON_AREA_HEIGHT + BORDER_WIDTH + region.height;
    if inside {
        assert(!in_rect(f[0], px, py));
        assert(!in_rect(f[1], px, py));
        assert(!in_rect(f[2], px, py));
        assert(!in_rect(f[3], px, py));
    } else {
        if in_rect(f[0], px, py) {
            assert(covered(f, px, py));
        } else if in_rect(f[1], px, py) {
            assert(covered(f, px, py));
        } else if in_rect(f[2], px, py) {
            assert(covered(f, px, py));
        } else {
            assert(in_rect(f[3], px, py));
            assert(covered(f, px, py));
        }
    }
}

/// `pattern` occurs in `s`.
pub open spec fn contains_text(s: Seq<char>, pattern: Seq<char>) -> bool {
    exists|i: int| 0 <= i && i + pattern.len() <= s.len() && #[trigger] s.subrange(i, i + pattern.len()) == pattern
}

/// Whether `pattern` occurs in `s`.
pub fn find_text(s: &Vec<char>, pattern: &Vec<char>) -> (found: bool)
    ensures
        found == contains_text(s@, pattern@),
{
    let n = s.len();
    let m = pattern.len();
    if m > n {
        assert(!contains_text(s@, pattern@));
        return false;
    }
    let mut i: usize = 0;
    while i <= n - m
        invariant
            n == s.len(),
            m == pattern.len(),
            m <= n,
            i <= n - m + 1,
            forall|k: int| 0 <= k < i ==> #[trigger] s@.subrange(k, k + m) != pattern@,
        decreases n - m + 1 - i,
    {
        let mut j: usize = 0;
        let mut same = true;
        while j < m
            invariant
                n == s.len(),
                m == pattern.len(),
                i + m <= n,
                j <= m,
                same == (forall|k: int| 0 <= k < j ==> s@[i + k] == #[trigger] pattern@[k]),
            decreases m - j,
        {
            if s[i + j] != pattern[j] {
                same = false;
            }
            j = j + 1;
        }
        if same {
            assert(s@.subrange(i as int, i + m) =~= pattern@);
            return true;
        }
        assert(s@.subrange(i as int, i + m) != pattern@) by {
            let k = choose|k: int| 0 <= k < m && s@[i + k] != pattern@[k];
            assert(s@.subrange(i as int, i + m)[k] == s@[i + k]);
        }
        i = i + 1;
    }
    assert forall|k: int| 0 <= k && k + m <= n implies #[trigger] s@.subrange(k, k + m) != pattern@ by {
        assert(k < i);
    }
    false
}

/// An error of the recording thread that the overlay passes over: stopping
/// from the button interrupts the recorder with a signal, which is expected.
pub open spec fn is_interruption(message: Seq<char>) -> bool {
    contains_text(message, "interrupted"@) || contains_text(message, "signal"@)
}

/// Whether the recording error with this message is an interruption.
pub fn interruption(message: &str) -> (r: bool)
    ensures
        r == is_interruption(message@),
{
    let m = chars_of(message);
    let a = chars_of("interrupted");
    let b = chars_of("signal");
    find_text(&m, &a) || find_text(&m, &b)
}

/// Whether the overlay's run ends well given how the recording ended:
/// success, or an error (its message) that is an interruption.
pub fn overlay_outcome(record_error: Option<&str>) -> (ok: bool)
    ensures
        ok == match record_error {
            None => true,
            Some(m) => is_interruption(m@),
        },
{
    match record_error {
        None => true,
        Some(m) => interruption(m),
    }
}

} // verus!
