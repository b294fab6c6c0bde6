//! Pure, stateless conversions between the three coordinate spaces: window
//! pixels to normalized device coordinates for rendering, and window pixels
//! plus window position and DPI scale to global desktop pixels for capture.

use crate::geometry::{in_coord_range, point_in_range, Point, ScaleFactor, scale_wf};
use vstd::prelude::*;

verus! {

/// A point in normalized device coordinates, kept exact as one ratio per
/// axis: the NDC value of the x axis is `x_num / x_den` and the denominator
/// is the window dimension the point was mapped with. The rendering host
/// divides the parts out when it builds its vertex buffer.
#[derive(Clone, Copy, PartialEq, Eq, Structural, Debug)]
pub struct NdcPoint {
    pub x_num: i64,
    pub y_num: i64,
    pub x_den: u32,
    pub y_den: u32,
}

/// The NDC image of a window-local point: `x' = 2*x/w - 1 = (2*x - w) / w`
/// and `y' = 1 - 2*y/h = (h - 2*y) / h`, held as exact ratios.
pub open spec fn spec_to_ndc(p: Point, width: u32, height: u32) -> NdcPoint {
    NdcPoint {
        x_num: (2 * p.x - width) as i64,
        y_num: (height - 2 * p.y) as i64,
        x_den: width,
        y_den: height,
    }
}

/// The window-local point an exact NDC point came from: on the x axis,
/// `x = (x' + 1) * w / 2 = (x_num + w) / 2`, and on the y axis
/// `y = (1 - y') * h / 2 = (h - y_num) / 2`.
pub open spec fn spec_from_ndc(n: NdcPoint) -> Point {
    Point {
        x: ((n.x_num + n.x_den) / 2) as i64,
        y: ((n.y_den - n.y_num) / 2) as i64,
    }
}

/// Map a window-local point to normalized device coordinates for rendering.
/// The caller supplies the window's inner size and never calls this before
/// the geometry is known, so both dimensions are positive.
pub fn to_ndc(p: &Point, width: u32, height: u32) -> (n: NdcPoint)
    requires
        point_in_range(*p),
        width >= 1,
        height >= 1,
    ensures
        n == spec_to_ndc(*p, width, height),
{
    let x_num: i64 = 2 * p.x - (width as i64);
    let y_num: i64 = (height as i64) - 2 * p.y;
    NdcPoint { x_num, y_num, x_den: width, y_den: height }
}

/// Map an exact NDC point back to the window-local point it came from; the
/// inverse of `to_ndc` on its image (where both parities are even).
pub fn from_ndc(n: &NdcPoint) -> (p: Point)
    requires
        (n.x_num + n.x_den) % 2 == 0,
        (n.y_den - n.y_num) % 2 == 0,
        in_coord_range((n.x_num + n.x_den) / 2),
        in_coord_range((n.y_den - n.y_num) / 2),
    ensures
        p == spec_from_ndc(*n),
{
    let sx: i64 = n.x_num + (n.x_den as i64);
    let sy: i64 = (n.y_den as i64) - n.y_num;
    let x: i64 = if sx >= 0 {
        ((sx as u64) / 2) as i64
    } else {
        -((((-sx) as u64) / 2) as i64)
    };
    let y: i64 = if sy >= 0 {
        ((sy as u64) / 2) as i64
    } else {
        -((((-sy) as u64) / 2) as i64)
    };
    Point { x, y }
}

/// Mapping a point to NDC and back with the same window size reproduces the
/// original point exactly.
pub proof fn lemma_ndc_round_trip(p: Point, width: u32, height: u32)
    requires
        point_in_range(p),
        width >= 1,
        height >= 1,
    ensures
        spec_from_ndc(spec_to_ndc(p, width, height)) == p,
{
}

/// Division that rounds to the nearest integer, halves away from zero.
pub open spec fn round_div(a: int, d: int) -> int
    recommends
        d >= 1,
{
    if a >= 0 {
        (2 * a + d) / (2 * d)
    } else {
        -((2 * (-a) + d) / (2 * d))
    }
}

/// A window-local length or offset `v`, divided by the scale factor and
/// rounded to the nearest global desktop pixel.
pub open spec fn spec_scale_to_global(v: int, s: ScaleFactor) -> int {
    round_div(v * s.den, s.num as int)
}

/// The global desktop pixel a window-local coordinate lands on:
/// `(v + offset) / scale`, rounded to the nearest integer.
pub open spec fn spec_to_global(v: int, offset: int, s: ScaleFactor) -> int {
    spec_scale_to_global(v + offset, s)
}

/// Nearest-integer division of `a` by `d`, halves away from zero.
fn round_div_i64(a: i64, d: i64) -> (q: i64)
    requires
        1 <= d <= 0x1_0000_0000,
        -0x100_0000_0000_0000 <= a <= 0x100_0000_0000_0000,
    ensures
        q == round_div(a as int, d as int),
{
    let m: u64 = (2 * d) as u64;
    if a >= 0 {
        let n: u64 = (2 * a + d) as u64;
        (n / m) as i64
    } else {
        let n: u64 = (2 * (-a) + d) as u64;
        -((n / m) as i64)
    }
}

/// Divide a window-local length or offset by the DPI scale factor,
/// rounding to the nearest global desktop pixel.
pub fn scale_to_global(v: i64, scale: ScaleFactor) -> (r: i64)
    requires
        -0x1_0000_0000 <= v <= 0x1_0000_0000,
        scale_wf(scale),
    ensures
        r == spec_scale_to_global(v as int, scale),
{
    assert(-0x100_0000_0000_0000 <= v * (scale.den as i64) <= 0x100_0000_0000_0000)
        by (nonlinear_arith)
        requires
            -0x1_0000_0000 <= v <= 0x1_0000_0000,
            1 <= scale.den <= 0x100_0000,
    {}
    let prod: i64 = v * (scale.den as i64);
    round_div_i64(prod, scale.num as i64)
}

/// Map a window-local point to global desktop pixels for capture: add the
/// window's desktop position, then divide by the DPI scale factor, rounding
/// each axis to the nearest pixel.
pub fn to_global_pixels(p: &Point, pos_x: i32, pos_y: i32, scale: ScaleFactor) -> (g: Point)
    requires
        point_in_range(*p),
        scale_wf(scale),
    ensures
        g.x == spec_to_global(p.x as int, pos_x as int, scale),
        g.y == spec_to_global(p.y as int, pos_y as int, scale),
{
    let sum_x: i64 = p.x + (pos_x as i64);
    let sum_y: i64 = p.y + (pos_y as i64);
    assert(-0x100_0000_0000_0000 <= sum_x * (scale.den as i64) <= 0x100_0000_0000_0000)
        by (nonlinear_arith)
        requires
            -0xC000_0000 <= sum_x <= 0xC000_0000,
            1 <= scale.den <= 0x100_0000,
    {}
    assert(-0x100_0000_0000_0000 <= sum_y * (scale.den as i64) <= 0x100_0000_0000_0000)
        by (nonlinear_arith)
        requires
            -0xC000_0000 <= sum_y <= 0xC000_0000,
            1 <= scale.den <= 0x100_0000,
    {}
    let prod_x: i64 = sum_x * (scale.den as i64);
    let prod_y: i64 = sum_y * (scale.den as i64);
    let gx: i64 = round_div_i64(prod_x, scale.num as i64);
    let gy: i64 = round_div_i64(prod_y, scale.num as i64);
    Point { x: gx, y: gy }
}

/// With a scale factor of `1.0` and a window position of `(0, 0)`, the map
/// to global desktop pixels is the identity.
pub proof fn lemma_to_global_identity(v: int)
    ensures
        spec_to_global(v, 0, ScaleFactor { num: 1u32, den: 1u32 }) == v,
{
    if v >= 0 {
        assert((2 * v + 1) / 2 == v);
    } else {
        assert((2 * (-v) + 1) / 2 == -v);
    }
}

} // verus!
