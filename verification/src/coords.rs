//! Conversions between viewport coordinates and image pixel coordinates:
//! the proportional rescale behind one-shot color sampling and the
//! floor/ceil rectangle mapping behind a crop commit.

use vstd::prelude::*;
use vstd::arithmetic::div_mod::{
    lemma_basic_div, lemma_div_by_self, lemma_div_is_ordered, lemma_div_nonincreasing,
    lemma_div_pos_is_pos, lemma_fundamental_div_mod, lemma_mod_division_less_than_divisor,
};
use crate::geom::{Dims, Point};

verus! {

/// A rectangle in image pixel coordinates.
#[derive(Clone, Copy, PartialEq, Eq, Structural, Debug)]
pub struct PixelRect {
    pub x: u32,
    pub y: u32,
    pub w: u32,
    pub h: u32,
}

/// `floor(v * extent / view)`: the image coordinate a viewport coordinate
/// lands on under a proportional rescale.
pub open spec fn floor_scaled(v: int, extent: int, view: int) -> int {
    (v * extent) / view
}

/// `ceil(d * extent / view)`: the pixel extent a viewport extent covers
/// under a proportional rescale, rounded outward.
pub open spec fn ceil_scaled(d: int, extent: int, view: int) -> int {
    (d * extent + view - 1) / view
}

/// The image pixel a color-sampling click resolves to along one axis:
/// `floor(extent * v / view)`, clamped into `[0, extent - 1]`.
pub open spec fn sample_coord_spec(v: int, extent: int, view: int) -> int {
    let raw = floor_scaled(v, extent, view);
    if raw < 0 {
        0
    } else if raw >= extent {
        extent - 1
    } else {
        raw
    }
}

/// Quotients of non-negative values by positive divisors stay between zero
/// and the dividend.
proof fn lemma_div_bounds(n: int, d: int)
    requires
        0 <= n,
        1 <= d,
    ensures
        0 <= n / d <= n,
{
    lemma_div_pos_is_pos(n, d);
    lemma_div_nonincreasing(n, d);
}

/// A negative dividend keeps a positive divisor's quotient negative.
proof fn lemma_neg_div(n: int, d: int)
    requires
        n <= -1,
        1 <= d,
    ensures
        n / d <= -1,
{
    lemma_fundamental_div_mod(n, d);
    lemma_mod_division_less_than_divisor(n, d);
    let q = n / d;
    let r = n % d;
    assert(q <= -1) by (nonlinear_arith)
        requires
            n == d * q + r,
            0 <= r < d,
            n <= -1,
            1 <= d,
    ;
}

/// One axis of the sampling rescale.
fn scale_clamp(v: i64, extent: u32, view: u32) -> (r: u32)
    requires
        1 <= extent,
        1 <= view,
        -0x4000_0000 <= v <= 0x4000_0000,
    ensures
        r == sample_coord_spec(v as int, extent as int, view as int),
{
    if v <= 0 {
        proof {
            if v < 0 {
                assert(v * extent <= -1) by (nonlinear_arith)
                    requires
                        v <= -1,
                        1 <= extent,
                ;
                lemma_neg_div(v * extent, view as int);
            } else {
                assert(v * extent == 0) by (nonlinear_arith)
                    requires
                        v == 0,
                ;
                lemma_basic_div(0, view as int);
            }
        }
        0
    } else {
        proof {
            assert(0 <= (v as int) * (extent as int) <= 0x4000_0000_0000_0000i64) by (nonlinear_arith)
                requires
                    1 <= v <= 0x4000_0000,
                    1 <= extent <= 0xFFFF_FFFFu32,
            ;
        }
        let prod: u64 = (v as u64) * (extent as u64);
        let q: u64 = prod / (view as u64);
        proof {
            lemma_div_bounds(prod as int, view as int);
        }
        if q >= extent as u64 {
            extent - 1
        } else {
            q as u32
        }
    }
}

/// The image pixel a color-sampling click at `pos` resolves to: each axis is
/// the proportional rescale `floor(image_extent * pos / viewport_extent)`,
/// clamped into the image bounds, so a click outside the canvas still
/// samples the nearest edge pixel.
pub fn sample_point(image: Dims, viewport: Dims, pos: Point) -> (p: (u32, u32))
    requires
        1 <= image.w,
        1 <= image.h,
        1 <= viewport.w,
        1 <= viewport.h,
        pos.in_range(),
    ensures
        p.0 == sample_coord_spec(pos.x as int, image.w as int, viewport.w as int),
        p.1 == sample_coord_spec(pos.y as int, image.h as int, viewport.h as int),
{
    (scale_clamp(pos.x, image.w, viewport.w), scale_clamp(pos.y, image.h, viewport.h))
}

/// Where a crop drag from `start` to `end` on the viewport lands on the
/// captured image: the origin is scaled down with `floor`, the extent with
/// `ceil`, and the result is clipped to the capture. `None` when the drag
/// is degenerate or entirely outside the capture — backwards, zero-area, or
/// starting left of or above the canvas — in which case nothing may be
/// cropped.
pub open spec fn crop_rect_spec(pre: Dims, viewport: Dims, start: Point, end: Point) -> Option<
    PixelRect,
> {
    let px = floor_scaled(start.x as int, pre.w as int, viewport.w as int);
    let py = floor_scaled(start.y as int, pre.h as int, viewport.h as int);
    let pw = ceil_scaled(end.x - start.x, pre.w as int, viewport.w as int);
    let ph = ceil_scaled(end.y - start.y, pre.h as int, viewport.h as int);
    if px < 0 || py < 0 || pw <= 0 || ph <= 0 || px >= pre.w || py >= pre.h {
        None
    } else {
        Some(PixelRect {
            x: px as u32,
            y: py as u32,
            w: (if pw <= pre.w - px { pw } else { pre.w - px }) as u32,
            h: (if ph <= pre.h - py { ph } else { pre.h - py }) as u32,
        })
    }
}

/// One axis origin of the crop rescale.
fn crop_floor(v: u64, extent: u32, view: u32) -> (r: u64)
    requires
        1 <= view,
        v <= 0x4000_0000,
    ensures
        r == floor_scaled(v as int, extent as int, view as int),
        0 <= r <= v * extent,
{
    proof {
        assert(0 <= (v as int) * (extent as int) <= 0x4000_0000_0000_0000i64) by (nonlinear_arith)
            requires
                0 <= v <= 0x4000_0000,
                0 <= extent <= 0xFFFF_FFFFu32,
        ;
    }
    let prod: u64 = v * (extent as u64);
    proof {
        lemma_div_bounds(prod as int, view as int);
    }
    prod / (view as u64)
}

/// One axis extent of the crop rescale; positive whenever the drag extent
/// and the capture extent are.
fn crop_ceil(d: u64, extent: u32, view: u32) -> (r: u64)
    requires
        1 <= view,
        1 <= d <= 0x8000_0000,
        1 <= extent,
    ensures
        r == ceil_scaled(d as int, extent as int, view as int),
        1 <= r,
{
    proof {
        assert((d as int) * (extent as int) >= 1 && (d as int) * (extent as int)
            <= 0x8000_0000_0000_0000u64) by (nonlinear_arith)
            requires
                1 <= d <= 0x8000_0000,
                1 <= extent <= 0xFFFF_FFFFu32,
        ;
    }
    let num: u64 = d * (extent as u64) + (view as u64 - 1);
    proof {
        lemma_div_bounds(num as int, view as int);
        lemma_div_is_ordered(view as int, num as int, view as int);
        lemma_div_by_self(view as int);
    }
    num / (view as u64)
}

/// Maps a crop drag to the pixel rectangle to cut from the capture, exactly
/// as `crop_rect_spec` states.
pub fn crop_rect(pre: Dims, viewport: Dims, start: Point, end: Point) -> (r: Option<PixelRect>)
    requires
        1 <= viewport.w,
        1 <= viewport.h,
        start.in_range(),
        end.in_range(),
    ensures
        r == crop_rect_spec(pre, viewport, start, end),
{
    let dx: i64 = end.x - start.x;
    let dy: i64 = end.y - start.y;
    if pre.w == 0 || pre.h == 0 {
        proof {
            if pre.w == 0 {
                assert((dx as int) * (pre.w as int) == 0) by (nonlinear_arith)
                    requires
                        pre.w == 0,
                ;
                lemma_basic_div(viewport.w as int - 1, viewport.w as int);
            } else {
                assert((dy as int) * (pre.h as int) == 0) by (nonlinear_arith)
                    requires
                        pre.h == 0,
                ;
                lemma_basic_div(viewport.h as int - 1, viewport.h as int);
            }
        }
        return None;
    }
    if start.x < 0 || start.y < 0 {
        proof {
            if start.x < 0 {
                assert((start.x as int) * (pre.w as int) <= -1) by (nonlinear_arith)
                    requires
                        start.x <= -1,
                        1 <= pre.w,
                ;
                lemma_neg_div((start.x as int) * (pre.w as int), viewport.w as int);
            } else {
                assert((start.y as int) * (pre.h as int) <= -1) by (nonlinear_arith)
                    requires
                        start.y <= -1,
                        1 <= pre.h,
                ;
                lemma_neg_div((start.y as int) * (pre.h as int), viewport.h as int);
            }
        }
        return None;
    }
    if dx <= 0 || dy <= 0 {
        proof {
            if dx <= 0 {
                assert((dx as int) * (pre.w as int) <= 0) by (nonlinear_arith)
                    requires
                        dx <= 0,
                        0 <= pre.w,
                ;
                lemma_div_is_ordered(
                    dx as int * pre.w as int + viewport.w as int - 1,
                    viewport.w as int - 1,
                    viewport.w as int,
                );
                lemma_basic_div(viewport.w as int - 1, viewport.w as int);
            } else {
                assert((dy as int) * (pre.h as int) <= 0) by (nonlinear_arith)
                    requires
                        dy <= 0,
                        0 <= pre.h,
                ;
                lemma_div_is_ordered(
                    dy as int * pre.h as int + viewport.h as int - 1,
                    viewport.h as int - 1,
                    viewport.h as int,
                );
                lemma_basic_div(viewport.h as int - 1, viewport.h as int);
            }
        }
        return None;
    }
    let px: u64 = crop_floor(start.x as u64, pre.w, viewport.w);
    let py: u64 = crop_floor(start.y as u64, pre.h, viewport.h);
    if px >= pre.w as u64 || py >= pre.h as u64 {
        return None;
    }
    let pw: u64 = crop_ceil(dx as u64, pre.w, viewport.w);
    let ph: u64 = crop_ceil(dy as u64, pre.h, viewport.h);
    let avail_w: u64 = pre.w as u64 - px;
    let avail_h: u64 = pre.h as u64 - py;
    let w: u64 = if pw <= avail_w { pw } else { avail_w };
    let h: u64 = if ph <= avail_h { ph } else { avail_h };
    Some(PixelRect { x: px as u32, y: py as u32, w: w as u32, h: h as u32 })
}

} // verus!
