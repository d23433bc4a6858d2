//! Placement of a video picture inside a window under a scale mode.
use vstd::prelude::*;

verus! {

/// How a video picture is placed inside the window.
#[derive(Clone, Copy, Debug, PartialEq, Eq, Structural)]
pub enum ScaleMode {
    /// Letterbox or pillarbox: the whole picture is visible.
    Fit,
    /// Cover: the window is fully covered, the overflow is cropped.
    Fill,
}

pub open spec fn toggled_mode(m: ScaleMode) -> ScaleMode {
    match m {
        ScaleMode::Fit => ScaleMode::Fill,
        ScaleMode::Fill => ScaleMode::Fit,
    }
}

impl ScaleMode {
    /// The other mode.
    pub fn toggle(&self) -> (r: ScaleMode)
        ensures
            r == toggled_mode(*self),
    {
        match self {
            ScaleMode::Fit => ScaleMode::Fill,
            ScaleMode::Fill => ScaleMode::Fit,
        }
    }
}

/// A destination rectangle in window coordinates. A negative offset means
/// that the picture starts outside the window and is cropped there.
#[derive(Clone, Copy, Debug, PartialEq, Eq, Structural)]
pub struct Rect {
    pub x: i64,
    pub y: i64,
    pub width: u64,
    pub height: u64,
}

impl View for Rect {
    /// (x, y, width, height)
    type V = (int, int, int, int);

    open spec fn view(&self) -> (int, int, int, int) {
        (self.x as int, self.y as int, self.width as int, self.height as int)
    }
}

/// The largest product of two `u32` values.
pub const PRODUCT_MAX: u64 = 0xFFFF_FFFE_0000_0001;

/// `n / d` rounded up.
pub open spec fn ceil_quotient(n: int, d: int) -> int {
    (n + d - 1) / d
}

/// Half of what `outer` exceeds `inner` by, rounded down; zero when it does not.
pub open spec fn half_gap(outer: int, inner: int) -> int {
    if inner > outer {
        0
    } else {
        (outer - inner) / 2
    }
}

pub open spec fn min_int(a: int, b: int) -> int {
    if a <= b {
        a
    } else {
        b
    }
}

/// The video's aspect ratio `vw / vh` exceeds the window's `ww / wh`.
pub open spec fn wider_than_window(vw: int, vh: int, ww: int, wh: int) -> bool {
    vw * wh > ww * vh
}

/// The rectangle, as (x, y, width, height), at which a `vw` x `vh` picture is drawn
/// in a `ww` x `wh` window.
pub open spec fn display_rect(vw: int, vh: int, ww: int, wh: int, mode: ScaleMode) -> (
    int,
    int,
    int,
    int,
) {
    if vw == 0 || vh == 0 || ww == 0 || wh == 0 {
        (0, 0, 0, 0)
    } else {
        match mode {
            ScaleMode::Fit => if wider_than_window(vw, vh, ww, wh) {
                let h = min_int(ceil_quotient(ww * vh, vw), wh);
                (0, half_gap(wh, h), ww, h)
            } else {
                let w = min_int(ceil_quotient(wh * vw, vh), ww);
                (half_gap(ww, w), 0, w, wh)
            },
            ScaleMode::Fill => if wider_than_window(vw, vh, ww, wh) {
                let w = ceil_quotient(wh * vw, vh);
                (-half_gap(w, ww), 0, w, wh)
            } else {
                let h = ceil_quotient(ww * vh, vw);
                (0, -half_gap(h, wh), ww, h)
            },
        }
    }
}

proof fn lemma_product_bound(a: int, b: int)
    requires
        0 <= a <= u32::MAX,
        0 <= b <= u32::MAX,
    ensures
        0 <= a * b <= PRODUCT_MAX,
{
    assert(0 <= a * b <= 0xFFFF_FFFF * 0xFFFF_FFFF) by (nonlinear_arith)
        requires
            0 <= a <= 0xFFFF_FFFF,
            0 <= b <= 0xFFFF_FFFF,
    ;
}

fn ceil_div(n: u64, d: u64) -> (r: u64)
    requires
        0 < d <= u32::MAX,
        n <= PRODUCT_MAX,
    ensures
        r == ceil_quotient(n as int, d as int),
{
    (n + (d - 1)) / d
}

fn half_gap_exec(outer: u64, inner: u64) -> (r: u64)
    ensures
        r == half_gap(outer as int, inner as int),
        r <= i64::MAX,
{
    if inner > outer {
        0
    } else {
        (outer - inner) / 2
    }
}

/// Computes where a `video_width` x `video_height` picture goes in a
/// `window_width` x `window_height` window. Sizes are rounded up, and under
/// `Fit` clamped to the window; any zero size gives an empty rectangle.
pub fn calculate_display_rect(
    video_width: u32,
    video_height: u32,
    window_width: u32,
    window_height: u32,
    scale_mode: ScaleMode,
) -> (r: Rect)
    ensures
        r@ == display_rect(
            video_width as int,
            video_height as int,
            window_width as int,
            window_height as int,
            scale_mode,
        ),
{
    if video_width == 0 || video_height == 0 || window_width == 0 || window_height == 0 {
        return Rect { x: 0, y: 0, width: 0, height: 0 };
    }
    let vw = video_width as u64;
    let vh = video_height as u64;
    let ww = window_width as u64;
    let wh = window_height as u64;
    proof {
        lemma_product_bound(vw as int, wh as int);
        lemma_product_bound(ww as int, vh as int);
        lemma_product_bound(wh as int, vw as int);
    }
    let wider = vw * wh > ww * vh;
    match scale_mode {
        ScaleMode::Fit => {
            if wider {
                let h = ceil_div(ww * vh, vw);
                let h = if h > wh {
                    wh
                } else {
                    h
                };
                Rect { x: 0, y: half_gap_exec(wh, h) as i64, width: ww, height: h }
            } else {
                let w = ceil_div(wh * vw, vh);
                let w = if w > ww {
                    ww
                } else {
                    w
                };
                Rect { x: half_gap_exec(ww, w) as i64, y: 0, width: w, height: wh }
            }
        },
        ScaleMode::Fill => {
            if wider {
                let w = ceil_div(wh * vw, vh);
                Rect { x: -(half_gap_exec(w, ww) as i64), y: 0, width: w, height: wh }
            } else {
                let h = ceil_div(ww * vh, vw);
                Rect { x: 0, y: -(half_gap_exec(h, wh) as i64), width: ww, height: h }
            }
        },
    }
}

/// Under `Fit`, for positive sizes, the rectangle lies inside the window, one of
/// its sides equals the window's, and the margins on the other axis are even
/// (to within rounding down).
pub proof fn lemma_fit_inside_window(vw: u32, vh: u32, ww: u32, wh: u32)
    requires
        vw > 0,
        vh > 0,
        ww > 0,
        wh > 0,
    ensures
        ({
            let (x, y, w, h) = display_rect(vw as int, vh as int, ww as int, wh as int, ScaleMode::Fit);
            &&& 0 <= x
            &&& 0 <= y
            &&& x + w <= ww
            &&& y + h <= wh
            &&& (w == ww || h == wh)
            &&& x == (ww - w) / 2
            &&& y == (wh - h) / 2
        }),
{
}

proof fn lemma_ceil_at_least(n: int, d: int, k: int)
    requires
        d > 0,
        n >= k * d,
    ensures
        ceil_quotient(n, d) >= k,
{
    assert((n + d - 1) / d >= k) by (nonlinear_arith)
        requires
            d > 0,
            n >= k * d,
    ;
}

/// Under `Fill`, for positive sizes, the rectangle covers the window: one side
/// equals the window's and starts at the window's edge, the other is at least
/// the window's and is centred by an offset of minus half the overflow,
/// rounded down.
pub proof fn lemma_fill_covers_window(vw: u32, vh: u32, ww: u32, wh: u32)
    requires
        vw > 0,
        vh > 0,
        ww > 0,
        wh > 0,
    ensures
        ({
            let (x, y, w, h) = display_rect(vw as int, vh as int, ww as int, wh as int, ScaleMode::Fill);
            &&& w >= ww
            &&& h >= wh
            &&& ((w == ww && x == 0 && y == -((h - wh) / 2)) || (h == wh && y == 0 && x == -((w
                - ww) / 2)))
        }),
{
    let (vw, vh, ww, wh) = (vw as int, vh as int, ww as int, wh as int);
    if wider_than_window(vw, vh, ww, wh) {
        assert(wh * vw >= ww * vh) by (nonlinear_arith)
            requires
                vw * wh > ww * vh,
        ;
        lemma_ceil_at_least(wh * vw, vh, ww);
    } else {
        assert(ww * vh >= wh * vw) by (nonlinear_arith)
            requires
                vw * wh <= ww * vh,
        ;
        lemma_ceil_at_least(ww * vh, vw, wh);
    }
}

/// A zero size, of the video or of the window, gives an empty rectangle at the
/// origin, under either mode.
pub proof fn lemma_zero_size_is_empty(vw: u32, vh: u32, ww: u32, wh: u32, mode: ScaleMode)
    requires
        vw == 0 || vh == 0 || ww == 0 || wh == 0,
    ensures
        display_rect(vw as int, vh as int, ww as int, wh as int, mode) == (0int, 0int, 0int, 0int),
{
}

} // verus!
