//! Positions on the overlay surface and the circular hit test.

use vstd::prelude::*;

verus! {

/// A position on the overlay surface, in hundredths of a pixel.
#[derive(Clone, Copy, Debug, PartialEq, Eq, Structural)]
pub struct Point {
    pub x: i32,
    pub y: i32,
}

/// The squared distance between two positions.
pub open spec fn distance_squared(a: Point, b: Point) -> int {
    (a.x - b.x) * (a.x - b.x) + (a.y - b.y) * (a.y - b.y)
}

/// Whether `p` lies strictly closer to `center` than `radius`.
///
/// A point at exactly `radius` is outside.
pub open spec fn within(p: Point, center: Point, radius: u32) -> bool {
    distance_squared(p, center) < radius * radius
}

/// Decides `within` without a square root and without overflow.
pub fn within_radius(p: Point, center: Point, radius: u32) -> (inside: bool)
    ensures
        inside == within(p, center, radius),
{
    let dx: i128 = p.x as i128 - center.x as i128;
    let dy: i128 = p.y as i128 - center.y as i128;
    let r: i128 = radius as i128;
    assert(0 <= dx * dx <= 0x1_0000_0000 * 0x1_0000_0000) by (nonlinear_arith)
        requires
            -0x1_0000_0000 <= dx <= 0x1_0000_0000,
    ;
    assert(0 <= dy * dy <= 0x1_0000_0000 * 0x1_0000_0000) by (nonlinear_arith)
        requires
            -0x1_0000_0000 <= dy <= 0x1_0000_0000,
    ;
    assert(0 <= r * r <= 0x1_0000_0000 * 0x1_0000_0000) by (nonlinear_arith)
        requires
            0 <= r <= 0x1_0000_0000,
    ;
    dx * dx + dy * dy < r * r
}

} // verus!
