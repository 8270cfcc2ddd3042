//! What a frame of the game looks like: which colour each part is painted
//! in and where a cell lands on the screen. Nothing here draws; a renderer
//! asks these functions and fills the rectangles.

use crate::models::{Coordinate, State};
use vstd::prelude::*;

verus! {

/// A colour as red, green and blue.
#[derive(Clone, Copy, Debug, PartialEq, Eq, Structural)]
pub struct Rgb(pub u8, pub u8, pub u8);

/// The background that shows the state of the game.
pub open spec fn spec_background_color(state: State) -> Rgb {
    match state {
        State::Playing => Rgb(0, 0, 0),
        State::Paused => Rgb(30, 30, 30),
        State::Over => Rgb(200, 50, 50),
        State::Win => Rgb(0, 200, 50),
    }
}

/// The colour of the segment at place `index` of the snake, the head being
/// at place 0: the head has a colour of its own, the segments behind it
/// alternate.
pub open spec fn spec_segment_color(index: int) -> Rgb {
    if index == 0 {
        Rgb(204, 204, 255)
    } else if index % 2 == 0 {
        Rgb(255, 51, 204)
    } else {
        Rgb(255, 0, 255)
    }
}

/// Whether the top left pixel of `cell` can be addressed when a cell is
/// `dot_size` pixels wide and high.
pub open spec fn on_screen(cell: Coordinate, dot_size: u32) -> bool {
    &&& i32::MIN <= cell.0 * dot_size <= i32::MAX
    &&& i32::MIN <= cell.1 * dot_size <= i32::MAX
}

/// The background colour for `state`.
#[verifier::when_used_as_spec(spec_background_color)]
pub fn background_color(state: State) -> (color: Rgb)
    ensures
        color == spec_background_color(state),
{
    match state {
        State::Playing => Rgb(0, 0, 0),
        State::Paused => Rgb(30, 30, 30),
        State::Over => Rgb(200, 50, 50),
        State::Win => Rgb(0, 200, 50),
    }
}

/// The colour of the snake's segment at place `index`.
pub fn segment_color(index: usize) -> (color: Rgb)
    ensures
        color == spec_segment_color(index as int),
{
    if index == 0 {
        // Snake's head
        Rgb(204, 204, 255)
    } else if index % 2 == 0 {
        // Alternate colours for snake's body
        Rgb(255, 51, 204)
    } else {
        Rgb(255, 0, 255)
    }
}

/// The colour the food is painted in.
pub fn food_color() -> (color: Rgb)
    ensures
        color == Rgb(204, 0, 0),
{
    Rgb(204, 0, 0)
}

/// The top left pixel of `cell` when a cell is `dot_size` pixels wide and
/// high, or `None` where that pixel cannot be addressed.
pub fn cell_origin(cell: Coordinate, dot_size: u32) -> (origin: Option<(i32, i32)>)
    ensures
        origin.is_some() <==> on_screen(cell, dot_size),
        origin matches Some(pixel) ==> pixel.0 == cell.0 * dot_size && pixel.1 == cell.1
            * dot_size,
{
    let dot: i64 = dot_size as i64;
    assert(-0x8000_0000 * 0xffff_ffff <= cell.0 * dot <= 0x7fff_ffff * 0xffff_ffff
        && -0x8000_0000 * 0xffff_ffff <= cell.1 * dot <= 0x7fff_ffff * 0xffff_ffff)
        by (nonlinear_arith)
        requires
            -0x8000_0000 <= cell.0 <= 0x7fff_ffff,
            -0x8000_0000 <= cell.1 <= 0x7fff_ffff,
            0 <= dot <= 0xffff_ffff,
    ;
    let x: i64 = (cell.0 as i64) * dot;
    let y: i64 = (cell.1 as i64) * dot;
    if x < i32::MIN as i64 || x > i32::MAX as i64 || y < i32::MIN as i64 || y > i32::MAX as i64 {
        return None;
    }
    Some((x as i32, y as i32))
}

} // verus!
