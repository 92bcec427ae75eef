//! The raster that encodes the world's collision geometry: an RGBA8 image
//! buffer of the `image` crate, held in [`Raster`] behind trusted wrappers.
//!
//! The raster's contents are named by [`raster_grid`]: a sequence of rows
//! from the top of the image down, each row a sequence of `(r, g, b, a)`
//! channel tuples from left to right. The wrappers below are the only code
//! that touches the buffer; everything that reads a pixel goes through
//! [`Raster::color_checked`] and is verified against that name.

use vstd::prelude::*;

verus! {

/// An RGBA8 pixel color, as the four channel values.
#[derive(Clone, Copy, Debug, PartialEq, Eq, Structural)]
pub struct TileColor {
    pub r: u8,
    pub g: u8,
    pub b: u8,
    pub a: u8,
}

impl TileColor {
    pub open spec fn spec_rgba(r: u8, g: u8, b: u8, a: u8) -> TileColor {
        TileColor { r, g, b, a }
    }

    pub fn rgba(r: u8, g: u8, b: u8, a: u8) -> (c: TileColor)
        ensures
            c == TileColor::spec_rgba(r, g, b, a),
    {
        TileColor { r, g, b, a }
    }

    /// The fully transparent color that stands for empty space.
    pub fn transparent() -> (c: TileColor)
        ensures
            c == TileColor::spec_rgba(0, 0, 0, 0),
    {
        TileColor { r: 0, g: 0, b: 0, a: 0 }
    }
}

/// A width x height grid of RGBA8 pixels: an `image::ImageBuffer` held
/// opaquely, since its declaration (bounded by the `Pixel` trait) cannot be
/// stated here directly.
#[verifier::external_body]
pub struct Raster {
    buf: image::ImageBuffer<image::Rgba<u8>, Vec<u8>>,
}

/// The pixel colors held by a raster: one sequence per row, top row first,
/// each entry the `(r, g, b, a)` channels of one pixel, leftmost first.
pub uninterp spec fn raster_grid(r: Raster) -> Seq<Seq<(u8, u8, u8, u8)>>;

impl Raster {
    /// Relies on `image::ImageBuffer::from_raw`: builds the width x height
    /// RGBA8 image over the given bytes, rows stored top to bottom, pixels
    /// left to right, four channels per pixel in r, g, b, a order.
    #[verifier::external_body]
    pub fn from_raw(width: u32, height: u32, data: Vec<u8>) -> (r: Raster)
        requires
            data@.len() == 4 * (width as int) * (height as int),
        ensures
            raster_grid(r).len() == height as nat,
            forall|y: int|
                0 <= y < height ==> #[trigger] raster_grid(r)[y].len() == width as nat,
            forall|y: int, x: int|
                0 <= y < height && 0 <= x < width ==> #[trigger] raster_grid(r)[y][x] == (
                    data@[4 * (y * width + x)],
                    data@[4 * (y * width + x) + 1],
                    data@[4 * (y * width + x) + 2],
                    data@[4 * (y * width + x) + 3],
                ),
    {
        Raster { buf: image::ImageBuffer::from_raw(width, height, data).unwrap() }
    }

    /// Relies on `image::ImageBuffer::height`: the number of pixel rows.
    #[verifier::external_body]
    pub(crate) fn height(&self) -> (r: u32)
        ensures
            r as nat == raster_grid(*self).len(),
    {
        self.buf.height()
    }

    /// Relies on `image::ImageBuffer::width`: the number of pixel columns; an
    /// image buffer is rectangular, so every row has this length.
    #[verifier::external_body]
    pub(crate) fn width(&self) -> (r: u32)
        ensures
            forall|i: int|
                0 <= i < raster_grid(*self).len() ==> #[trigger] raster_grid(*self)[i].len()
                    == r as nat,
    {
        self.buf.width()
    }

    /// Relies on `image::ImageBuffer::get_pixel_checked`: `Some` exactly when
    /// `(x, y)` lies inside the raster's bounds, and then the pixel at column
    /// `x` of row `y` (row 0 at the top).
    #[verifier::external_body]
    fn pixel_checked(&self, x: u32, y: u32) -> (r: Option<(u8, u8, u8, u8)>)
        ensures
            r is Some <==> ((y as nat) < raster_grid(*self).len() && (x as nat) < raster_grid(
                *self,
            )[y as int].len()),
            r is Some ==> r->Some_0 == raster_grid(*self)[y as int][x as int],
    {
        self.buf.get_pixel_checked(x, y).map(|p| (p.0[0], p.0[1], p.0[2], p.0[3]))
    }

    /// The color of the pixel at column `x` of row `y`, or `None` outside the
    /// raster.
    pub fn color_checked(&self, x: u32, y: u32) -> (r: Option<TileColor>)
        ensures
            r is Some <==> ((y as nat) < raster_grid(*self).len() && (x as nat) < raster_grid(
                *self,
            )[y as int].len()),
            r is Some ==> {
                let (cr, cg, cb, ca) = raster_grid(*self)[y as int][x as int];
                r->Some_0 == TileColor::spec_rgba(cr, cg, cb, ca)
            },
    {
        match self.pixel_checked(x, y) {
            Some((cr, cg, cb, ca)) => Some(TileColor { r: cr, g: cg, b: cb, a: ca }),
            None => None,
        }
    }
}

} // verus!
