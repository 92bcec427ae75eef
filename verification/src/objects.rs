//! Static world objects and direction vocabulary shared with the renderer.

use crate::raster::TileColor;
use crate::vec2::Vec2;
use vstd::prelude::*;

verus! {

/// An eight-way compass direction, classifying where a collision contact
/// lies relative to the body.
#[derive(Clone, Copy, Debug, PartialEq, Eq, Hash, Structural)]
pub enum Direction {
    N,
    NE,
    E,
    SE,
    S,
    SW,
    W,
    NW,
}

/// A static rectangular object: two opposite corners in world units and a
/// fill color. The core never draws it; a renderer reads the fields.
#[derive(Clone, Copy, Debug, PartialEq, Eq, Structural)]
pub struct RectangularObject {
    pub c0: Vec2,
    pub c1: Vec2,
    pub color: TileColor,
}

impl RectangularObject {
    pub fn new(c0: Vec2, c1: Vec2, color: TileColor) -> (r: RectangularObject)
        ensures
            r == (RectangularObject { c0, c1, color }),
    {
        RectangularObject { c0, c1, color }
    }
}

} // verus!
