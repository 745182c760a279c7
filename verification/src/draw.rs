//! What a frame paints: the speech bubble, the character and the drag hint.

use crate::geometry::Point;
use crate::shape::{Rgba, Shape, Stroke};
use crate::state::{center, CharacterState, Frame, CENTER_X, CENTER_Y};
use vstd::prelude::*;

verus! {

/// The value a sample of the unit sine wave has where the wave is at one.
pub const SINE_ONE: i32 = 1_000_000;

/// The farthest from the origin, along either axis, a centre may be for the
/// arithmetic of the drawing to fit.
pub const COORD_LIMIT: i32 = 1_000_000_000;

/// A bound on how far the head's centre is from the character's.
pub const HEAD_REACH: i32 = 200_000;

/// How many points the smile is sampled at.
pub const SMILE_POINTS: usize = 20;

/// How fast the phase of a wave grows: by `radians + half_turns * π` radians
/// per second.
#[derive(Clone, Copy, Debug, PartialEq, Eq, Structural)]
pub struct AngularSpeed {
    pub radians: u32,
    pub half_turns: u32,
}

/// Whether both coordinates are within `COORD_LIMIT` of the origin.
pub open spec fn in_reach(p: Point) -> bool {
    &&& -COORD_LIMIT <= p.x <= COORD_LIMIT
    &&& -COORD_LIMIT <= p.y <= COORD_LIMIT
}

/// Whether `head` can be the head of a character whose centre is in reach: at
/// the largest scale and bounce the head is less than `HEAD_REACH` from it.
pub open spec fn head_in_reach(head: Point) -> bool {
    &&& -COORD_LIMIT - HEAD_REACH <= head.x <= COORD_LIMIT + HEAD_REACH
    &&& -COORD_LIMIT - HEAD_REACH <= head.y <= COORD_LIMIT + HEAD_REACH
}

/// The quotient rounded toward zero.
pub open spec fn toward_zero(a: int, b: int) -> int {
    if a >= 0 {
        a / b
    } else {
        -((-a) / b)
    }
}

/// `p` moved by `dx` to the right and `dy` down.
pub open spec fn moved(p: Point, dx: int, dy: int) -> Point {
    Point { x: (p.x + dx) as i32, y: (p.y + dy) as i32 }
}

/// The speed of the bounce: half a turn per second while idle, twelve radians
/// per second while talking.
pub open spec fn bounce_speed_of(mood: CharacterState) -> AngularSpeed {
    match mood {
        CharacterState::Idle => AngularSpeed { radians: 0, half_turns: 1 },
        CharacterState::Talking => AngularSpeed { radians: 12, half_turns: 0 },
    }
}

/// The height of the bounce: ten pixels while idle and five while talking,
/// times the scale.
pub open spec fn bounce_amplitude_of(mood: CharacterState, scale: u8) -> int {
    match mood {
        CharacterState::Idle => 100 * scale,
        CharacterState::Talking => 50 * scale,
    }
}

/// How far the character is displaced where the unit sine wave is at `sine`
/// millionths.
pub open spec fn bounce_offset_of(mood: CharacterState, scale: u8, sine: i32) -> int {
    toward_zero(sine * bounce_amplitude_of(mood, scale), SINE_ONE as int)
}

/// The sine of `(i / 19 - 1 / 2) * 3.14`, in millionths.
pub open spec fn smile_curve_at(i: int) -> int {
    seq![
        -1_000_000int,
        -986_244,
        -945_613,
        -879_214,
        -788_857,
        -677_004,
        -546_703,
        -401_504,
        -245_364,
        -82_538,
        82_538,
        245_364,
        401_504,
        546_703,
        677_004,
        788_857,
        879_214,
        945_613,
        986_244,
        1_000_000,
    ][i]
}

/// The `i`-th point of the smile under a head centred on `head`: the points
/// are spread evenly over forty pixels times the scale, and follow the curve
/// five pixels times the scale up and down.
pub open spec fn smile_point_at(head: Point, scale: u8, i: int) -> Point {
    moved(
        head,
        toward_zero((2 * i - 19) * (200 * scale), 19),
        50 * scale + toward_zero(smile_curve_at(i) * scale, 20_000),
    )
}

/// The stroke of the body and limbs.
pub open spec fn limb_stroke(scale: u8) -> Stroke {
    Stroke { width: (40 * scale) as i32, color: Rgba::ink() }
}

/// The stroke of the head's outline and of the smile.
pub open spec fn fine_stroke(scale: u8) -> Stroke {
    Stroke { width: (20 * scale) as i32, color: Rgba::black() }
}

/// The stroke of the shoes.
pub open spec fn shoe_stroke(scale: u8) -> Stroke {
    Stroke { width: (30 * scale) as i32, color: Rgba::ink() }
}

/// The speech bubble over a character centred on `center`: a rounded box of
/// 250 by 60 pixels centred 60 pixels below the top of the surface, its
/// outline, a tail pointing down at the character, and the message.
pub open spec fn bubble_shapes(message: &'static str, center: Point) -> Seq<Shape> {
    let min = Point { x: (center.x - 12_500) as i32, y: 3_000 };
    let max = Point { x: (center.x + 12_500) as i32, y: 9_000 };
    seq![
        Shape::RectFilled { min, max, rounding: 2_000, fill: Rgba::white_alpha(242) },
        Shape::RectStroke {
            min,
            max,
            rounding: 2_000,
            stroke: Stroke { width: 200, color: Rgba::ink() },
        },
        Shape::Triangle {
            a: Point { x: (center.x - 1_500) as i32, y: 9_000 },
            b: Point { x: (center.x + 1_500) as i32, y: 9_000 },
            c: Point { x: center.x, y: 10_500 },
            fill: Rgba::white_alpha(242),
        },
        Shape::Text {
            pos: Point { x: center.x, y: 6_000 },
            text: message,
            size: 1_400,
            color: Rgba::ink(),
        },
    ]
}

/// The head centred on `head`: the disc and its outline, the whites of the
/// eyes, and the pupils.
pub open spec fn head_shapes(head: Point, scale: u8) -> Seq<Shape> {
    let left_eye = moved(head, -80 * scale, -20 * scale);
    let right_eye = moved(head, 80 * scale, -20 * scale);
    seq![
        Shape::CircleFilled { center: head, radius: (200 * scale) as i32, fill: Rgba::ink() },
        Shape::CircleStroke {
            center: head,
            radius: (200 * scale) as i32,
            stroke: fine_stroke(scale),
        },
        Shape::CircleFilled { center: left_eye, radius: (30 * scale) as i32, fill: Rgba::white() },
        Shape::CircleFilled { center: right_eye, radius: (30 * scale) as i32, fill: Rgba::white() },
        Shape::CircleFilled {
            center: moved(left_eye, 10 * scale, 0),
            radius: (15 * scale) as i32,
            fill: Rgba::black(),
        },
        Shape::CircleFilled {
            center: moved(right_eye, 10 * scale, 0),
            radius: (15 * scale) as i32,
            fill: Rgba::black(),
        },
    ]
}

/// The `i`-th segment of the smile, from its `i`-th point to the next.
pub open spec fn smile_segment(head: Point, scale: u8, i: int) -> Shape {
    Shape::LineSegment {
        from: smile_point_at(head, scale, i),
        to: smile_point_at(head, scale, i + 1),
        stroke: fine_stroke(scale),
    }
}

/// The first `n` segments of the smile.
pub open spec fn smile_shapes(head: Point, scale: u8, n: nat) -> Seq<Shape> {
    Seq::new(n, |i: int| smile_segment(head, scale, i))
}

/// The body, the arms, the legs and the shoes of a character centred on
/// `center` and displaced by `bounce`.
pub open spec fn limb_shapes(center: Point, scale: u8, bounce: int) -> Seq<Shape> {
    let hip = moved(center, 0, 100 * scale + bounce);
    let shoulder = moved(center, 0, -250 * scale + bounce);
    let left_foot = moved(center, -200 * scale, 500 * scale + bounce);
    let right_foot = moved(center, 200 * scale, 500 * scale + bounce);
    seq![
        Shape::LineSegment {
            from: moved(center, 0, -400 * scale + bounce),
            to: hip,
            stroke: limb_stroke(scale),
        },
        Shape::LineSegment {
            from: shoulder,
            to: moved(shoulder, -250 * scale, 200 * scale),
            stroke: limb_stroke(scale),
        },
        Shape::LineSegment {
            from: shoulder,
            to: moved(shoulder, 250 * scale, 200 * scale),
            stroke: limb_stroke(scale),
        },
        Shape::LineSegment { from: hip, to: left_foot, stroke: limb_stroke(scale) },
        Shape::LineSegment { from: hip, to: right_foot, stroke: limb_stroke(scale) },
        Shape::LineSegment {
            from: left_foot,
            to: moved(left_foot, -100 * scale, 0),
            stroke: shoe_stroke(scale),
        },
        Shape::LineSegment {
            from: right_foot,
            to: moved(right_foot, 100 * scale, 0),
            stroke: shoe_stroke(scale),
        },
    ]
}

/// The character centred on `center`, displaced by `bounce`: the head sixty
/// pixels times the scale above the centre, the smile of nineteen segments,
/// then the body and limbs.
pub open spec fn figure_shapes(center: Point, scale: u8, bounce: int) -> Seq<Shape> {
    let head = moved(center, 0, -600 * scale + bounce);
    head_shapes(head, scale) + smile_shapes(head, scale, (SMILE_POINTS - 1) as nat) + limb_shapes(
        center,
        scale,
        bounce,
    )
}

/// The character in the given mood where the unit sine wave is at `sine`.
pub open spec fn stickman_shapes(
    mood: CharacterState,
    center: Point,
    scale: u8,
    sine: i32,
) -> Seq<Shape> {
    figure_shapes(center, scale, bounce_offset_of(mood, scale, sine))
}

/// The drag hint at the given opacity, near the bottom of the surface.
pub open spec fn hint_shapes(alpha: Option<u8>) -> Seq<Shape> {
    match alpha {
        Some(a) => seq![
            Shape::Text {
                pos: Point { x: 15_000, y: 38_000 },
                text: "Drag me around!",
                size: 1_100,
                color: Rgba::white_alpha(a),
            },
        ],
        None => Seq::empty(),
    }
}

/// The phase speed of the bounce in the given mood.
pub fn bounce_speed(mood: CharacterState) -> (speed: AngularSpeed)
    ensures
        speed == bounce_speed_of(mood),
{
    match mood {
        CharacterState::Idle => AngularSpeed { radians: 0, half_turns: 1 },
        CharacterState::Talking => AngularSpeed { radians: 12, half_turns: 0 },
    }
}

/// The displacement of the character where the unit sine wave is at `sine`
/// millionths: the wave times the amplitude, rounded toward zero.
pub fn bounce_offset(mood: CharacterState, scale: u8, sine: i32) -> (offset: i32)
    requires
        -SINE_ONE <= sine <= SINE_ONE,
    ensures
        offset == bounce_offset_of(mood, scale, sine),
        -bounce_amplitude_of(mood, scale) <= offset <= bounce_amplitude_of(mood, scale),
{
    let amplitude: i64 = match mood {
        CharacterState::Idle => 100 * (scale as i64),
        CharacterState::Talking => 50 * (scale as i64),
    };
    assert(-1_000_000 * amplitude <= sine * amplitude <= 1_000_000 * amplitude)
        by (nonlinear_arith)
        requires
            -1_000_000 <= sine <= 1_000_000,
            0 <= amplitude,
    ;
    let product: i64 = (sine as i64) * amplitude;
    (product / 1_000_000) as i32
}

/// The sine of `(i / 19 - 1 / 2) * 3.14`, in millionths.
pub fn smile_curve(i: usize) -> (sine: i32)
    requires
        i < SMILE_POINTS,
    ensures
        sine == smile_curve_at(i as int),
        -SINE_ONE <= sine <= SINE_ONE,
{
    let table: [i32; 20] = [
        -1_000_000,
        -986_244,
        -945_613,
        -879_214,
        -788_857,
        -677_004,
        -546_703,
        -401_504,
        -245_364,
        -82_538,
        82_538,
        245_364,
        401_504,
        546_703,
        677_004,
        788_857,
        879_214,
        945_613,
        986_244,
        1_000_000,
    ];
    table[i]
}

/// The `i`-th point of the smile under a head centred on `head`.
pub fn smile_point(head: Point, scale: u8, i: usize) -> (p: Point)
    requires
        i < SMILE_POINTS,
        head_in_reach(head),
    ensures
        p == smile_point_at(head, scale, i as int),
{
    let s: i64 = scale as i64;
    let step: i64 = 2 * (i as i64) - 19;
    assert(-3_800 * s <= step * (200 * s) <= 3_800 * s) by (nonlinear_arith)
        requires
            -19 <= step <= 19,
            0 <= s,
    ;
    let across: i64 = step * (200 * s) / 19;
    let curve: i64 = smile_curve(i) as i64;
    assert(-1_000_000 * s <= curve * s <= 1_000_000 * s) by (nonlinear_arith)
        requires
            -1_000_000 <= curve <= 1_000_000,
            0 <= s,
    ;
    let down: i64 = 50 * s + curve * s / 20_000;
    Point { x: (head.x as i64 + across) as i32, y: (head.y as i64 + down) as i32 }
}

/// Adds the speech bubble with `message` to `out`.
pub fn show_speech_bubble(message: &'static str, out: &mut Vec<Shape>, center: Point)
    requires
        in_reach(center),
    ensures
        final(out)@ == old(out)@ + bubble_shapes(message, center),
{
    let min = Point { x: center.x - 12_500, y: 3_000 };
    let max = Point { x: center.x + 12_500, y: 9_000 };
    out.push(Shape::RectFilled { min, max, rounding: 2_000, fill: Rgba::white_alpha(242) });
    out.push(
        Shape::RectStroke {
            min,
            max,
            rounding: 2_000,
            stroke: Stroke { width: 200, color: Rgba::ink() },
        },
    );
    out.push(
        Shape::Triangle {
            a: Point { x: center.x - 1_500, y: max.y },
            b: Point { x: center.x + 1_500, y: max.y },
            c: Point { x: center.x, y: max.y + 1_500 },
            fill: Rgba::white_alpha(242),
        },
    );
    out.push(
        Shape::Text {
            pos: Point { x: center.x, y: 6_000 },
            text: message,
            size: 1_400,
            color: Rgba::ink(),
        },
    );
}

/// Adds the character to `out`: centred on `center`, at `scale` tenths, in the
/// given mood, where the unit sine wave of its bounce is at `sine` millionths.
pub fn draw_stickman(
    mood: CharacterState,
    out: &mut Vec<Shape>,
    center: Point,
    scale: u8,
    sine: i32,
)
    requires
        in_reach(center),
        -SINE_ONE <= sine <= SINE_ONE,
    ensures
        final(out)@ == old(out)@ + stickman_shapes(mood, center, scale, sine),
{
    let s: i32 = scale as i32;
    let ink = Rgba::ink();
    let stroke = Stroke { width: 40 * s, color: ink };
    let fine = Stroke { width: 20 * s, color: Rgba::black() };
    let bounce: i32 = bounce_offset(mood, scale, sine);
    let ghost before = out@;

    let head = Point { x: center.x, y: center.y - 600 * s + bounce };
    out.push(Shape::CircleFilled { center: head, radius: 200 * s, fill: ink });
    out.push(Shape::CircleStroke { center: head, radius: 200 * s, stroke: fine });

    let left_eye = Point { x: head.x - 80 * s, y: head.y - 20 * s };
    let right_eye = Point { x: head.x + 80 * s, y: head.y - 20 * s };
    out.push(Shape::CircleFilled { center: left_eye, radius: 30 * s, fill: Rgba::white() });
    out.push(Shape::CircleFilled { center: right_eye, radius: 30 * s, fill: Rgba::white() });
    out.push(
        Shape::CircleFilled {
            center: Point { x: left_eye.x + 10 * s, y: left_eye.y },
            radius: 15 * s,
            fill: Rgba::black(),
        },
    );
    out.push(
        Shape::CircleFilled {
            center: Point { x: right_eye.x + 10 * s, y: right_eye.y },
            radius: 15 * s,
            fill: Rgba::black(),
        },
    );

    let mut from = smile_point(head, scale, 0);
    let mut i: usize = 1;
    while i < SMILE_POINTS
        invariant
            1 <= i <= SMILE_POINTS,
            head_in_reach(head),
            fine == fine_stroke(scale),
            from == smile_point_at(head, scale, i - 1),
            out@ == before + head_shapes(head, scale) + smile_shapes(head, scale, (i - 1) as nat),
        decreases SMILE_POINTS - i,
    {
        let to = smile_point(head, scale, i);
        out.push(Shape::LineSegment { from, to, stroke: fine });
        from = to;
        i = i + 1;
    }

    let body_top = Point { x: center.x, y: center.y - 400 * s + bounce };
    let body_bottom = Point { x: center.x, y: center.y + 100 * s + bounce };
    out.push(Shape::LineSegment { from: body_top, to: body_bottom, stroke });

    let arm_y: i32 = center.y - 250 * s + bounce;
    out.push(
        Shape::LineSegment {
            from: Point { x: center.x, y: arm_y },
            to: Point { x: center.x - 250 * s, y: arm_y + 200 * s },
            stroke,
        },
    );
    out.push(
        Shape::LineSegment {
            from: Point { x: center.x, y: arm_y },
            to: Point { x: center.x + 250 * s, y: arm_y + 200 * s },
            stroke,
        },
    );

    let foot_y: i32 = center.y + 500 * s + bounce;
    out.push(
        Shape::LineSegment {
            from: body_bottom,
            to: Point { x: center.x - 200 * s, y: foot_y },
            stroke,
        },
    );
    out.push(
        Shape::LineSegment {
            from: body_bottom,
            to: Point { x: center.x + 200 * s, y: foot_y },
            stroke,
        },
    );

    let shoe = Stroke { width: 30 * s, color: ink };
    out.push(
        Shape::LineSegment {
            from: Point { x: center.x - 200 * s, y: foot_y },
            to: Point { x: center.x - 300 * s, y: foot_y },
            stroke: shoe,
        },
    );
    out.push(
        Shape::LineSegment {
            from: Point { x: center.x + 200 * s, y: foot_y },
            to: Point { x: center.x + 300 * s, y: foot_y },
            stroke: shoe,
        },
    );
}

impl Frame {
    /// Everything the frame paints, bottom first: the speech bubble if it is
    /// up, the character, and the drag hint while it has not faded out.
    pub open spec fn shapes(self, sine: i32) -> Seq<Shape> {
        let bubble = match self.bubble {
            Some(message) => bubble_shapes(message, center()),
            None => Seq::empty(),
        };
        bubble + stickman_shapes(self.mood, center(), self.scale, sine) + hint_shapes(
            self.hint_alpha,
        )
    }

    /// The shapes to paint for this frame, in painting order, where the unit
    /// sine wave of the bounce is at `sine` millionths.
    ///
    /// The wave is that of `bounce_speed(self.mood)` at `self.animation_time`.
    pub fn render(&self, sine: i32) -> (shapes: Vec<Shape>)
        requires
            -SINE_ONE <= sine <= SINE_ONE,
        ensures
            shapes@ == self.shapes(sine),
    {
        let center = Point { x: CENTER_X, y: CENTER_Y };
        let mut shapes: Vec<Shape> = Vec::new();
        if let Some(message) = self.bubble {
            show_speech_bubble(message, &mut shapes, center);
        }
        draw_stickman(self.mood, &mut shapes, center, self.scale, sine);
        if let Some(alpha) = self.hint_alpha {
            shapes.push(
                Shape::Text {
                    pos: Point { x: 15_000, y: 38_000 },
                    text: "Drag me around!",
                    size: 1_100,
                    color: Rgba::white_alpha(alpha),
                },
            );
        }
        shapes
    }
}

/// The smile is a chain: nineteen line segments, each starting where the one
/// before it ends.
pub proof fn lemma_smile_is_connected(head: Point, scale: u8, i: int)
    requires
        0 <= i < SMILE_POINTS - 2,
    ensures
        smile_shapes(head, scale, (SMILE_POINTS - 1) as nat).len() == 19,
        smile_shapes(head, scale, 19)[i] matches Shape::LineSegment { to, .. } && smile_shapes(
            head,
            scale,
            19,
        )[i + 1] matches Shape::LineSegment { from, .. } && to == from,
{
}

/// The bounce displaces the character as a whole: drawn with a bounce, it is
/// what it would be at rest with its centre that much lower.
pub proof fn lemma_bounce_moves_the_figure(center: Point, scale: u8, bounce: int)
    requires
        in_reach(center),
        -100 * scale <= bounce <= 100 * scale,
    ensures
        figure_shapes(center, scale, bounce) == figure_shapes(moved(center, 0, bounce), scale, 0),
{
}

} // verus!
