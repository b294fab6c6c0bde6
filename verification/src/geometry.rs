//! The data model of the selection overlay: points, rectangles, window
//! geometry, DPI scale factors and capture regions, with their invariants.

use vstd::math::abs;
use vstd::prelude::*;

verus! {

/// Every coordinate handled by the library stays within this bound (2^30
/// pixels, far beyond any desktop), which keeps every intermediate value of
/// the conversion pipeline inside an `i64`.
pub const COORD_LIMIT: i64 = 0x4000_0000;

/// Numerator and denominator of a DPI scale factor stay within this bound
/// (2^24), which keeps scaled coordinates inside an `i64`.
pub const SCALE_LIMIT: u32 = 0x100_0000;

/// A position in one specific coordinate space: window-local physical pixels
/// or global desktop pixels. A value moves between spaces only through the
/// conversion functions in `mapper`.
#[derive(Clone, Copy, PartialEq, Eq, Structural, Debug)]
pub struct Point {
    pub x: i64,
    pub y: i64,
}

pub open spec fn in_coord_range(v: int) -> bool {
    -(COORD_LIMIT as int) <= v <= COORD_LIMIT as int
}

pub open spec fn point_in_range(p: Point) -> bool {
    in_coord_range(p.x as int) && in_coord_range(p.y as int)
}

/// The two corners of a selection as dragged; `a` may be any corner, so the
/// pair is not required to be ordered.
#[derive(Clone, Copy, PartialEq, Eq, Structural, Debug)]
pub struct Rectangle {
    pub a: Point,
    pub b: Point,
}

pub open spec fn rect_in_range(r: Rectangle) -> bool {
    point_in_range(r.a) && point_in_range(r.b)
}

pub open spec fn rect_width(r: Rectangle) -> int {
    abs(r.b.x - r.a.x) as int
}

pub open spec fn rect_height(r: Rectangle) -> int {
    abs(r.b.y - r.a.y) as int
}

/// A selection can be committed only when it has positive area.
pub open spec fn rect_non_degenerate(r: Rectangle) -> bool {
    rect_width(r) > 0 && rect_height(r) > 0
}

/// The ordered form of a dragged rectangle: `top_left` is the component-wise
/// minimum of the two corners, `bottom_right` the component-wise maximum.
#[derive(Clone, Copy, PartialEq, Eq, Structural, Debug)]
pub struct NormalizedRectangle {
    pub top_left: Point,
    pub bottom_right: Point,
}

/// What normalization guarantees: the corners are ordered component-wise.
pub open spec fn normalized_wf(n: NormalizedRectangle) -> bool {
    &&& n.top_left.x <= n.bottom_right.x
    &&& n.top_left.y <= n.bottom_right.y
}

pub open spec fn spec_normalize(r: Rectangle) -> NormalizedRectangle {
    NormalizedRectangle {
        top_left: Point {
            x: if r.a.x <= r.b.x { r.a.x } else { r.b.x },
            y: if r.a.y <= r.b.y { r.a.y } else { r.b.y },
        },
        bottom_right: Point {
            x: if r.a.x <= r.b.x { r.b.x } else { r.a.x },
            y: if r.a.y <= r.b.y { r.b.y } else { r.a.y },
        },
    }
}

/// Boundary points count as inside.
pub open spec fn spec_point_in_rect(p: Point, n: NormalizedRectangle) -> bool {
    &&& n.top_left.x <= p.x <= n.bottom_right.x
    &&& n.top_left.y <= p.y <= n.bottom_right.y
}

/// Strict containment: the point touches no edge of the rectangle.
pub open spec fn spec_point_strictly_in_rect(p: Point, n: NormalizedRectangle) -> bool {
    &&& n.top_left.x < p.x < n.bottom_right.x
    &&& n.top_left.y < p.y < n.bottom_right.y
}

/// Derive the ordered form of a dragged rectangle.
pub fn normalize(r: &Rectangle) -> (n: NormalizedRectangle)
    ensures
        n == spec_normalize(*r),
{
    let tl_x: i64 = if r.a.x <= r.b.x { r.a.x } else { r.b.x };
    let tl_y: i64 = if r.a.y <= r.b.y { r.a.y } else { r.b.y };
    let br_x: i64 = if r.a.x <= r.b.x { r.b.x } else { r.a.x };
    let br_y: i64 = if r.a.y <= r.b.y { r.b.y } else { r.a.y };
    NormalizedRectangle {
        top_left: Point { x: tl_x, y: tl_y },
        bottom_right: Point { x: br_x, y: br_y },
    }
}

/// The normalized form is always ordered: its top-left is component-wise
/// at most its bottom-right, whatever corners the drag produced.
pub proof fn lemma_normalize_ordered(r: Rectangle)
    ensures
        normalized_wf(spec_normalize(r)),
{
}

/// The point-in-rectangle test that decides between moving an existing
/// selection and starting a fresh drag.
pub fn point_in_rect(p: &Point, n: &NormalizedRectangle) -> (b: bool)
    ensures
        b == spec_point_in_rect(*p, *n),
{
    n.top_left.x <= p.x && p.x <= n.bottom_right.x && n.top_left.y <= p.y
        && p.y <= n.bottom_right.y
}

/// Decide whether a selection has positive area.
pub fn rect_is_non_degenerate(r: &Rectangle) -> (b: bool)
    ensures
        b == rect_non_degenerate(*r),
{
    r.a.x != r.b.x && r.a.y != r.b.y
}

/// A DPI scale factor as an exact ratio `num / den` of physical pixels to
/// logical pixels; both parts are positive and bounded by `SCALE_LIMIT`.
#[derive(Clone, Copy, PartialEq, Eq, Structural, Debug)]
pub struct ScaleFactor {
    pub num: u32,
    pub den: u32,
}

pub open spec fn scale_wf(s: ScaleFactor) -> bool {
    &&& 1 <= s.num <= SCALE_LIMIT
    &&& 1 <= s.den <= SCALE_LIMIT
}

impl ScaleFactor {
    /// Build a scale factor from its two parts; rejects a ratio whose parts
    /// are zero or too large to keep scaled coordinates inside an `i64`.
    pub fn new(num: u32, den: u32) -> (r: Option<ScaleFactor>)
        ensures
            r is Some <==> (1 <= num <= SCALE_LIMIT && 1 <= den <= SCALE_LIMIT),
            r matches Some(s) ==> s == (ScaleFactor { num, den }),
    {
        if 1 <= num && num <= SCALE_LIMIT && 1 <= den && den <= SCALE_LIMIT {
            Some(ScaleFactor { num, den })
        } else {
            None
        }
    }

    /// The scale factor `1.0`, under which global and window pixels agree.
    pub fn unit() -> (r: ScaleFactor)
        ensures
            r == (ScaleFactor { num: 1u32, den: 1u32 }),
    {
        ScaleFactor { num: 1, den: 1 }
    }
}

/// A read-only snapshot of the host window, supplied by the windowing
/// collaborator: outer position in desktop pixels, inner size in physical
/// pixels, and the DPI scale factor.
#[derive(Clone, Copy, PartialEq, Eq, Structural, Debug)]
pub struct WindowGeometry {
    pub pos_x: i32,
    pub pos_y: i32,
    pub width: u32,
    pub height: u32,
    pub scale: ScaleFactor,
}

pub open spec fn geometry_wf(g: WindowGeometry) -> bool {
    &&& g.width >= 1
    &&& g.height >= 1
    &&& scale_wf(g.scale)
}

/// The final request handed to the capture collaborator: position in global
/// desktop pixels and a strictly positive size.
#[derive(Clone, Copy, PartialEq, Eq, Structural, Debug)]
pub struct CaptureRegion {
    pub x: i32,
    pub y: i32,
    pub width: u32,
    pub height: u32,
}

pub open spec fn region_wf(c: CaptureRegion) -> bool {
    c.width >= 1 && c.height >= 1
}

} // verus!
