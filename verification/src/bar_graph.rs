//! Geometry of a bar graph widget.
use vstd::prelude::*;

verus! {

/// Integer division rounding toward zero, as Rust's `/` on `i32`.
pub open spec fn div_trunc(a: int, d: int) -> int {
    if a >= 0 {
        a / d
    } else {
        -((-a) / d)
    }
}

/// The absolute value of a coordinate.
pub open spec fn abs_int(v: i32) -> int {
    if v < 0 {
        -v
    } else {
        v as int
    }
}

/// The absolute value is non-negative and is the value or its negation;
/// halving rounds toward zero, leaving a remainder of the value's sign
/// smaller than 2.
pub proof fn lemma_abs_and_halving(v: i32, a: int)
    ensures
        abs_int(v) >= 0,
        abs_int(v) == v || abs_int(v) == -v,
        a >= 0 ==> 0 <= a - 2 * div_trunc(a, 2) < 2 && div_trunc(a, 2) >= 0,
        a < 0 ==> -2 < a - 2 * div_trunc(a, 2) <= 0 && div_trunc(a, 2) <= 0,
{
}

/// The size and center of a bar graph's box.
#[derive(Debug, Clone, Copy, PartialEq, Eq, Structural)]
pub struct BarGeometry {
    pub width: i32,
    pub height: i32,
    pub center_x: i32,
    pub center_y: i32,
}

/// The absolute value of a coordinate; `i32::MIN` has none.
fn abs_i32(v: i32) -> (r: i32)
    requires
        v != i32::MIN,
    ensures
        r == abs_int(v),
{
    if v < 0 {
        -v
    } else {
        v
    }
}

impl BarGeometry {
    /// The geometry of the box from `top_left` to `bottom_right`: its width
    /// and height are the differences of the corners' absolute coordinates,
    /// and its center lies half of them from the top left corner.
    pub fn new(top_left: (i32, i32), bottom_right: (i32, i32)) -> (r: BarGeometry)
        requires
            top_left.0 != i32::MIN,
            top_left.1 != i32::MIN,
            bottom_right.0 != i32::MIN,
            bottom_right.1 != i32::MIN,
            i32::MIN <= top_left.0 + div_trunc(abs_int(bottom_right.0) - abs_int(top_left.0), 2)
                <= i32::MAX,
            i32::MIN <= top_left.1 + div_trunc(abs_int(bottom_right.1) - abs_int(top_left.1), 2)
                <= i32::MAX,
        ensures
            r.width == abs_int(bottom_right.0) - abs_int(top_left.0),
            r.height == abs_int(bottom_right.1) - abs_int(top_left.1),
            r.center_x == top_left.0 + div_trunc(r.width as int, 2),
            r.center_y == top_left.1 + div_trunc(r.height as int, 2),
    {
        let width: i32 = abs_i32(bottom_right.0) - abs_i32(top_left.0);
        let height: i32 = abs_i32(bottom_right.1) - abs_i32(top_left.1);
        let center_x: i32 = top_left.0 + (width / 2);
        let center_y: i32 = top_left.1 + (height / 2);
        BarGeometry { width, height, center_x, center_y }
    }
}

} // verus!
