use vstd::prelude::*;

use crate::protocol::{Point, SPACE};

verus! {

/// How to draw a frame's titlebar: the two strokes of the close button's
/// cross, then the client's name (`WM_NAME`) at (`text_x`, `text_y`).
#[derive(Debug, PartialEq, Eq)]
pub struct TitlebarDrawing {
    /// Client window whose name is shown.
    pub window: u32,
    /// Frame window the titlebar belongs to.
    pub frame: u32,
    /// Graphics context to draw with.
    pub gc: u32,
    pub first_stroke: Vec<Point>,
    pub second_stroke: Vec<Point>,
    pub text_x: i16,
    pub text_y: i16,
}

/// `v / 2` rounded toward zero, as integer division in Rust rounds.
pub open spec fn half_toward_zero(v: int) -> int {
    if v >= 0 {
        v / 2
    } else {
        -((-v) / 2)
    }
}

/// Height of a titlebar for a font with this ascent and descent.
pub open spec fn bar_height_of(ascent: i16, descent: i16) -> int {
    ascent + descent + 2 * SPACE + 2
}

/// Top-left corner of the close button's cross in a titlebar `width`
/// pixels wide and `bar_height` pixels high.
pub open spec fn cross_origin(width: u16, bar_height: int) -> (int, int) {
    let x = width - half_toward_zero(bar_height) - 10;
    let offset = half_toward_zero(bar_height) - 5;
    (x + offset, offset)
}

/// The point (`dx`, `dy`) away from `origin`, with each coordinate wrapped
/// into an `i16` as the cast does.
pub open spec fn cross_point(origin: (int, int), dx: int, dy: int) -> Point {
    Point { x: (origin.0 + dx) as i16, y: (origin.1 + dy) as i16 }
}

/// The stroke from top left to bottom right, three pixels thick.
pub open spec fn first_stroke(o: (int, int)) -> Seq<Point> {
    seq![
        cross_point(o, 1, 0),
        cross_point(o, 8, 7),
        cross_point(o, 1, 1),
        cross_point(o, 7, 7),
        cross_point(o, 0, 1),
        cross_point(o, 7, 8),
    ]
}

/// The stroke from bottom left to top right, three pixels thick.
pub open spec fn second_stroke(o: (int, int)) -> Seq<Point> {
    seq![
        cross_point(o, 0, 7),
        cross_point(o, 7, 0),
        cross_point(o, 1, 7),
        cross_point(o, 7, 1),
        cross_point(o, 1, 8),
        cross_point(o, 8, 1),
    ]
}

} // verus!
