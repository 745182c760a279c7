//! The vector shapes a frame is made of.

use crate::geometry::Point;
use vstd::prelude::*;

verus! {

/// A colour in sRGB with separate (not premultiplied) alpha.
#[derive(Clone, Copy, Debug, PartialEq, Eq, Structural)]
pub struct Rgba {
    pub r: u8,
    pub g: u8,
    pub b: u8,
    pub a: u8,
}

impl Rgba {
    /// The dark grey of the character and of the bubble's outline and text.
    #[verifier::allow_in_spec]
    pub fn ink() -> Rgba
        returns
            (Rgba { r: 51, g: 51, b: 51, a: 255 }),
    {
        Rgba { r: 51, g: 51, b: 51, a: 255 }
    }

    #[verifier::allow_in_spec]
    pub fn black() -> Rgba
        returns
            (Rgba { r: 0, g: 0, b: 0, a: 255 }),
    {
        Rgba { r: 0, g: 0, b: 0, a: 255 }
    }

    #[verifier::allow_in_spec]
    pub fn white() -> Rgba
        returns
            (Rgba { r: 255, g: 255, b: 255, a: 255 }),
    {
        Rgba { r: 255, g: 255, b: 255, a: 255 }
    }

    /// Fully transparent: what the surface is cleared to.
    #[verifier::allow_in_spec]
    pub fn transparent() -> Rgba
        returns
            (Rgba { r: 0, g: 0, b: 0, a: 0 }),
    {
        Rgba { r: 0, g: 0, b: 0, a: 0 }
    }

    /// White at the given opacity.
    #[verifier::allow_in_spec]
    pub fn white_alpha(a: u8) -> Rgba
        returns
            (Rgba { r: 255, g: 255, b: 255, a }),
    {
        Rgba { r: 255, g: 255, b: 255, a }
    }
}

/// A line style: a width in hundredths of a pixel, and a colour.
#[derive(Clone, Copy, Debug, PartialEq, Eq, Structural)]
pub struct Stroke {
    pub width: i32,
    pub color: Rgba,
}

/// One thing to paint. Lengths are hundredths of a pixel.
#[derive(Clone, Copy, Debug, PartialEq, Eq)]
pub enum Shape {
    /// A filled disc.
    CircleFilled { center: Point, radius: i32, fill: Rgba },
    /// The outline of a circle.
    CircleStroke { center: Point, radius: i32, stroke: Stroke },
    /// A straight line between two points.
    LineSegment { from: Point, to: Point, stroke: Stroke },
    /// A filled rectangle with rounded corners.
    RectFilled { min: Point, max: Point, rounding: i32, fill: Rgba },
    /// The outline of a rectangle with rounded corners, drawn outside its edge.
    RectStroke { min: Point, max: Point, rounding: i32, stroke: Stroke },
    /// A filled triangle.
    Triangle { a: Point, b: Point, c: Point, fill: Rgba },
    /// A line of text in a proportional font, centred on `pos`.
    Text { pos: Point, text: &'static str, size: i32, color: Rgba },
}

} // verus!
