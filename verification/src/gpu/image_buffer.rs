//! The picture buffer of the `image` crate that the display draws into.
use vstd::prelude::*;
use image::{ImageBuffer, Rgba};

verus! {

/// A picture: an RGBA `ImageBuffer` of the `image` crate.
#[verifier::external_body]
pub struct Picture {
    image: ImageBuffer<Rgba<u8>, Vec<u8>>,
}

/// A colour: red, green, blue and alpha.
pub type Colour = (u8, u8, u8, u8);

/// The width and height of a picture.
pub uninterp spec fn picture_size(picture: Picture) -> (u32, u32);

/// The colour of each pixel `(x, y)` of a picture.
pub uninterp spec fn picture_pixels(picture: Picture) -> Map<(u32, u32), Colour>;

/// Every pixel of a `width` by `height` picture in `colour`.
pub open spec fn uniform_pixels(width: u32, height: u32, colour: Colour) -> Map<(u32, u32), Colour> {
    Map::new(|p: (u32, u32)| p.0 < width && p.1 < height, |p: (u32, u32)| colour)
}

/// A `width` by `height` picture in one colour (`ImageBuffer::from_pixel`).
/// It panics where the buffer would not fit in memory, so the size is bounded.
#[verifier::external_body]
pub(crate) fn picture_from_pixel(width: u32, height: u32, colour: Colour) -> (r: Picture)
    requires
        width as int * height as int * 4 <= usize::MAX,
    ensures
        picture_size(r) == (width, height),
        picture_pixels(r) == uniform_pixels(width, height, colour),
{
    Picture { image: ImageBuffer::from_pixel(width, height, Rgba([colour.0, colour.1, colour.2, colour.3])) }
}

/// Colours pixel `(x, y)` (`ImageBuffer::put_pixel`), which lies in the
/// picture: it panics elsewhere.
#[verifier::external_body]
pub(crate) fn picture_put_pixel(picture: &mut Picture, x: u32, y: u32, colour: Colour)
    requires
        x < picture_size(*old(picture)).0,
        y < picture_size(*old(picture)).1,
    ensures
        picture_size(*final(picture)) == picture_size(*old(picture)),
        picture_pixels(*final(picture)) == picture_pixels(*old(picture)).insert((x, y), colour),
{
    picture.image.put_pixel(x, y, Rgba([colour.0, colour.1, colour.2, colour.3]))
}

/// The colour of pixel `(x, y)` (`ImageBuffer::get_pixel`), which lies in the
/// picture: it panics elsewhere.
#[verifier::external_body]
pub(crate) fn picture_get_pixel(picture: &Picture, x: u32, y: u32) -> (r: Colour)
    requires
        x < picture_size(*picture).0,
        y < picture_size(*picture).1,
    ensures
        r == picture_pixels(*picture)[(x, y)],
{
    let pixel = picture.image.get_pixel(x, y);
    (pixel.data[0], pixel.data[1], pixel.data[2], pixel.data[3])
}

/// A copy of a picture (`ImageBuffer::clone`).
#[verifier::external_body]
pub(crate) fn picture_clone(picture: &Picture) -> (r: Picture)
    ensures
        picture_size(r) == picture_size(*picture),
        picture_pixels(r) == picture_pixels(*picture),
{
    Picture { image: picture.image.clone() }
}

/// The size of a picture (`ImageBuffer::dimensions`).
#[verifier::external_body]
pub(crate) fn picture_dimensions(picture: &Picture) -> (r: (u32, u32))
    ensures
        r == picture_size(*picture),
{
    picture.image.dimensions()
}

impl Picture {
    /// The width and height.
    pub fn size(&self) -> (r: (u32, u32))
        ensures
            r == picture_size(*self),
    {
        picture_dimensions(self)
    }

    /// The colour of pixel `(x, y)`, which lies in the picture.
    pub fn pixel(&self, x: u32, y: u32) -> (r: Colour)
        requires
            x < picture_size(*self).0,
            y < picture_size(*self).1,
        ensures
            r == picture_pixels(*self)[(x, y)],
    {
        picture_get_pixel(self, x, y)
    }

    /// A copy of the picture.
    pub fn copy(&self) -> (r: Picture)
        ensures
            picture_size(r) == picture_size(*self),
            picture_pixels(r) == picture_pixels(*self),
    {
        picture_clone(self)
    }
}

} // verus!
