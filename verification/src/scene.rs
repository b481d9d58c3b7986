use vstd::prelude::*;

use crate::color::Color;

verus! {

/// Number of colours the demo cycles through.
pub const PALETTE_LEN: usize = 4;

/// A pixel position on the display, x to the right, y downward.
#[derive(Clone, Copy, PartialEq, Eq, Structural, Debug)]
pub struct Point {
    pub x: i32,
    pub y: i32,
}

/// One filled primitive of the fixed scene. All shapes are drawn in the
/// currently selected fill colour.
#[derive(Clone, Copy, PartialEq, Eq, Structural, Debug)]
pub enum Shape {
    /// A text label anchored at `top_left` with a top baseline; its content
    /// is `label_text()`.
    Label { top_left: Point },
    /// A filled circle inside the square of side `diameter` whose top-left
    /// corner is `top_left`.
    Circle { top_left: Point, diameter: u32 },
    /// A filled triangle with corners `a`, `b` and `c`.
    Triangle { a: Point, b: Point, c: Point },
}

/// The fixed scene, in drawing order: the greeting label, two circles and
/// one triangle.
pub open spec fn spec_smiley_shapes() -> Seq<Shape> {
    seq![
        Shape::Label { top_left: Point { x: 100, y: 100 } },
        Shape::Circle { top_left: Point { x: 50, y: 100 }, diameter: 40 },
        Shape::Circle { top_left: Point { x: 50, y: 200 }, diameter: 40 },
        Shape::Triangle {
            a: Point { x: 130, y: 140 },
            b: Point { x: 130, y: 200 },
            c: Point { x: 160, y: 170 },
        },
    ]
}

/// The fixed scene as a vector, exactly `spec_smiley_shapes()` in order.
pub fn smiley_shapes() -> (v: Vec<Shape>)
    ensures
        v@ == spec_smiley_shapes(),
{
    let mut v: Vec<Shape> = Vec::new();
    v.push(Shape::Label { top_left: Point { x: 100, y: 100 } });
    v.push(Shape::Circle { top_left: Point { x: 50, y: 100 }, diameter: 40 });
    v.push(Shape::Circle { top_left: Point { x: 50, y: 200 }, diameter: 40 });
    v.push(
        Shape::Triangle {
            a: Point { x: 130, y: 140 },
            b: Point { x: 130, y: 200 },
            c: Point { x: 160, y: 170 },
        },
    );
    proof {
        assert(v@ =~= spec_smiley_shapes());
    }
    v
}

/// The text content of the scene's label.
pub fn label_text() -> (s: &'static str)
    ensures
        s@ == "Hello World!"@,
{
    "Hello World!"
}

/// The colours written to the LED chain, in cycling order: blue, red,
/// yellow, green (the green of the named-colour table is half intensity).
pub open spec fn spec_led_palette() -> Seq<Color> {
    seq![
        Color { red: 0, green: 0, blue: 255 },
        Color { red: 255, green: 0, blue: 0 },
        Color { red: 255, green: 255, blue: 0 },
        Color { red: 0, green: 128, blue: 0 },
    ]
}

/// The fill colours of the drawn scene, in cycling order: blue, red,
/// yellow, green, each at full intensity.
pub open spec fn spec_display_palette() -> Seq<Color> {
    seq![
        Color { red: 0, green: 0, blue: 255 },
        Color { red: 255, green: 0, blue: 0 },
        Color { red: 255, green: 255, blue: 0 },
        Color { red: 0, green: 255, blue: 0 },
    ]
}

/// The LED colour at cycle position `i`.
pub fn led_palette_color(i: usize) -> (c: Color)
    requires
        i < PALETTE_LEN,
    ensures
        c == spec_led_palette()[i as int],
{
    if i == 0 {
        Color::new(0, 0, 255)
    } else if i == 1 {
        Color::new(255, 0, 0)
    } else if i == 2 {
        Color::new(255, 255, 0)
    } else {
        Color::new(0, 128, 0)
    }
}

/// The display fill colour at cycle position `i`; it tracks the LED colour
/// of the same position.
pub fn display_palette_color(i: usize) -> (c: Color)
    requires
        i < PALETTE_LEN,
    ensures
        c == spec_display_palette()[i as int],
{
    if i == 0 {
        Color::new(0, 0, 255)
    } else if i == 1 {
        Color::new(255, 0, 0)
    } else if i == 2 {
        Color::new(255, 255, 0)
    } else {
        Color::new(0, 255, 0)
    }
}

/// The cycle position that follows `i`, wrapping after the last colour.
pub fn next_palette_index(i: usize) -> (j: usize)
    requires
        i < PALETTE_LEN,
    ensures
        j == (i + 1) % (PALETTE_LEN as int),
        j < PALETTE_LEN,
{
    if i + 1 == PALETTE_LEN {
        0
    } else {
        i + 1
    }
}

} // verus!
