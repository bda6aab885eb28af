//! The display: a picture that the pixel processing unit draws and a copy of
//! the last finished frame for whoever shows it.
use vstd::prelude::*;
use super::image_buffer::{picture_clone, picture_from_pixel, picture_pixels, picture_put_pixel, picture_size, uniform_pixels, Colour, Picture};

verus! {

pub const BG_TILES_HOR: u32 = 20;
pub const BG_TILES_VER: u32 = 18;
pub const BG_TILE_WIDTH: u32 = 8;
pub const BG_TILE_HEIGHT: u32 = 8;

/// The width of the display in pixels.
pub const HOR_PIXELS: u32 = BG_TILES_HOR * BG_TILE_WIDTH;

/// The height of the display in pixels.
pub const VER_PIXELS: u32 = BG_TILES_VER * BG_TILE_HEIGHT;

/// White, the colour of a display that nothing was drawn on.
pub open spec fn white() -> Colour {
    (255, 255, 255, 255)
}

/// The shade of a two-bit colour number: 0 is white, 3 is black; all four
/// channels, alpha too, take the shade.
pub open spec fn shade(color: u8) -> Colour {
    if color == 0 {
        (255, 255, 255, 255)
    } else if color == 1 {
        (180, 180, 180, 180)
    } else if color == 2 {
        (90, 90, 90, 90)
    } else {
        (0, 0, 0, 0)
    }
}

/// The pixels of the display and of its last finished frame.
pub struct LcdView {
    pub pixels: Map<(u32, u32), Colour>,
    pub frame: Map<(u32, u32), Colour>,
}

/// Holds the last finished frame.
pub struct LCDFetcher {
    image: Picture,
}

impl LCDFetcher {
    pub closed spec fn frame(&self) -> Map<(u32, u32), Colour> {
        picture_pixels(self.image)
    }

    pub closed spec fn wf(&self) -> bool {
        picture_size(self.image) == (HOR_PIXELS, VER_PIXELS)
    }

    /// A white frame.
    pub fn new() -> (r: LCDFetcher)
        ensures
            r.wf(),
            r.frame() == uniform_pixels(HOR_PIXELS, VER_PIXELS, white()),
    {
        let image = picture_from_pixel(HOR_PIXELS, VER_PIXELS, (255, 255, 255, 255));
        LCDFetcher { image }
    }

    /// Replaces the frame by `image`.
    pub fn set_image(&mut self, image: Picture)
        ensures
            final(self).frame() == picture_pixels(image),
            final(self).wf() == (picture_size(image) == (HOR_PIXELS, VER_PIXELS)),
    {
        self.image = image;
    }

    /// The frame.
    pub fn image(&self) -> (r: &Picture)
        ensures
            picture_pixels(*r) == self.frame(),
            self.wf() ==> picture_size(*r) == (HOR_PIXELS, VER_PIXELS),
    {
        &self.image
    }
}

/// The display.
pub struct LCD {
    lcd_fetcher: LCDFetcher,
    image: Picture,
}

impl View for LCD {
    type V = LcdView;

    closed spec fn view(&self) -> LcdView {
        LcdView { pixels: picture_pixels(self.image), frame: self.lcd_fetcher.frame() }
    }
}

impl LCD {
    pub closed spec fn wf(&self) -> bool {
        picture_size(self.image) == (HOR_PIXELS, VER_PIXELS) && self.lcd_fetcher.wf()
    }

    /// A white display showing a white frame.
    pub fn new() -> (r: LCD)
        ensures
            r.wf(),
            r@ == (LcdView {
                pixels: uniform_pixels(HOR_PIXELS, VER_PIXELS, white()),
                frame: uniform_pixels(HOR_PIXELS, VER_PIXELS, white()),
            }),
    {
        let image = picture_from_pixel(HOR_PIXELS, VER_PIXELS, (255, 255, 255, 255));
        LCD { image, lcd_fetcher: LCDFetcher::new() }
    }

    /// Colours pixel `(x, y)` in the shade of the two-bit colour number.
    pub fn set_pixel(&mut self, x: u32, y: u32, color: u8)
        requires
            old(self).wf(),
            x < HOR_PIXELS,
            y < VER_PIXELS,
            color <= 3,
        ensures
            final(self).wf(),
            final(self)@ == (LcdView { pixels: old(self)@.pixels.insert((x, y), shade(color)), ..old(self)@ }),
    {
        let pixel: Colour = match color {
            0b00 => (255, 255, 255, 255),
            0b01 => (180, 180, 180, 180),
            0b10 => (90, 90, 90, 90),
            _ => (0, 0, 0, 0),
        };
        picture_put_pixel(&mut self.image, x, y, pixel)
    }

    /// Hands the picture on as the finished frame.
    pub fn display(&mut self)
        requires
            old(self).wf(),
        ensures
            final(self).wf(),
            final(self)@ == (LcdView { frame: old(self)@.pixels, ..old(self)@ }),
    {
        let image = picture_clone(&self.image);
        self.lcd_fetcher.set_image(image)
    }

    /// The last finished frame.
    pub fn frame(&self) -> (r: &LCDFetcher)
        ensures
            r.frame() == self@.frame,
            self.wf() ==> r.wf(),
    {
        &self.lcd_fetcher
    }
}

} // verus!
