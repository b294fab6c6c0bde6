//! Turning a committed selection plus a window-geometry snapshot into a
//! capture-region request in global desktop pixels.

use crate::geometry::{
    geometry_wf, rect_height, rect_in_range, rect_width, region_wf, spec_normalize,
    normalize, CaptureRegion, Rectangle, WindowGeometry,
};
use crate::mapper::{
    scale_to_global, spec_scale_to_global, spec_to_global, to_global_pixels,
};
use vstd::prelude::*;

verus! {

/// Why building a capture region failed.
#[derive(Clone, Copy, PartialEq, Eq, Structural, Debug)]
pub enum RegionError {
    /// After DPI scaling, the selection's width or height rounded to zero,
    /// so no capture is attempted.
    DegenerateRegion,
}

/// The global x coordinate the selection's normalized top-left lands on.
pub open spec fn spec_region_x(r: Rectangle, g: WindowGeometry) -> int {
    spec_to_global(spec_normalize(r).top_left.x as int, g.pos_x as int, g.scale)
}

/// The global y coordinate the selection's normalized top-left lands on.
pub open spec fn spec_region_y(r: Rectangle, g: WindowGeometry) -> int {
    spec_to_global(spec_normalize(r).top_left.y as int, g.pos_y as int, g.scale)
}

/// The selection's width after DPI scaling, rounded to the nearest pixel.
pub open spec fn spec_region_width(r: Rectangle, g: WindowGeometry) -> int {
    spec_scale_to_global(rect_width(r), g.scale)
}

/// The selection's height after DPI scaling, rounded to the nearest pixel.
pub open spec fn spec_region_height(r: Rectangle, g: WindowGeometry) -> int {
    spec_scale_to_global(rect_height(r), g.scale)
}

/// Whether the scaled selection fits the capture request's coordinate
/// types: position in an `i32`, size in a `u32`.
pub open spec fn region_in_bounds(r: Rectangle, g: WindowGeometry) -> bool {
    &&& i32::MIN <= spec_region_x(r, g) <= i32::MAX
    &&& i32::MIN <= spec_region_y(r, g) <= i32::MAX
    &&& spec_region_width(r, g) <= u32::MAX
    &&& spec_region_height(r, g) <= u32::MAX
}

/// Decide whether the scaled selection fits the capture request's
/// coordinate types; checked by the host before it builds the request.
pub fn region_fits(r: &Rectangle, g: &WindowGeometry) -> (b: bool)
    requires
        rect_in_range(*r),
        geometry_wf(*g),
    ensures
        b == region_in_bounds(*r, *g),
{
    let n = normalize(r);
    let gp = to_global_pixels(&n.top_left, g.pos_x, g.pos_y, g.scale);
    let w_px: i64 = n.bottom_right.x - n.top_left.x;
    let h_px: i64 = n.bottom_right.y - n.top_left.y;
    let sw: i64 = scale_to_global(w_px, g.scale);
    let sh: i64 = scale_to_global(h_px, g.scale);
    (i32::MIN as i64) <= gp.x && gp.x <= (i32::MAX as i64) && (i32::MIN as i64) <= gp.y
        && gp.y <= (i32::MAX as i64) && sw <= (u32::MAX as i64) && sh <= (u32::MAX as i64)
}

/// Build the capture request for a committed selection: normalize it, map
/// its top-left to global desktop pixels, scale its width and height by the
/// inverse of the DPI factor rounding to the nearest pixel, and reject the
/// request when either dimension rounds to zero.
pub fn build_capture_region(r: &Rectangle, g: &WindowGeometry) -> (res: Result<
    CaptureRegion,
    RegionError,
>)
    requires
        rect_in_range(*r),
        geometry_wf(*g),
        region_in_bounds(*r, *g),
    ensures
        res is Ok <==> (spec_region_width(*r, *g) >= 1 && spec_region_height(*r, *g) >= 1),
        res matches Ok(c) ==> {
            &&& c.x == spec_region_x(*r, *g)
            &&& c.y == spec_region_y(*r, *g)
            &&& c.width == spec_region_width(*r, *g)
            &&& c.height == spec_region_height(*r, *g)
            &&& region_wf(c)
        },
        res matches Err(e) ==> e == RegionError::DegenerateRegion && (spec_region_width(*r, *g)
            == 0 || spec_region_height(*r, *g) == 0),
{
    let n = normalize(r);
    let w_px: i64 = n.bottom_right.x - n.top_left.x;
    let h_px: i64 = n.bottom_right.y - n.top_left.y;
    let sw: i64 = scale_to_global(w_px, g.scale);
    let sh: i64 = scale_to_global(h_px, g.scale);
    if sw >= 1 && sh >= 1 {
        let gp = to_global_pixels(&n.top_left, g.pos_x, g.pos_y, g.scale);
        Ok(
            CaptureRegion {
                x: gp.x as i32,
                y: gp.y as i32,
                width: sw as u32,
                height: sh as u32,
            },
        )
    } else {
        Err(RegionError::DegenerateRegion)
    }
}

} // verus!
