//! A debugging view of the video memory: the 256 background tiles drawn as
//! a 16 by 16 grid of 8 by 8 pixels.
use vstd::prelude::*;
use crate::mem::memory::MapsMemory;
use crate::util::bit_op::bit_of;
use crate::util::memory_op::{byte_at, read_memory, readable};
use crate::gpu::image_buffer::{picture_from_pixel, picture_pixels, picture_put_pixel, picture_size, Colour, Picture};

verus! {

/// The LCD control register; its bit 4 selects the tile data area.
pub const LCDC_REGISTER: u16 = 0xFF40;
/// The width of the tile grid picture.
pub const PIXEL_WIDTH: u32 = 128;
/// The height of the tile grid picture.
pub const PIXEL_HEIGHT: u32 = 128;

/// Draws the video memory of an emulator.
pub trait VramDebugger {
    /// The video memory and the LCD control register can be read.
    spec fn video_readable(&self) -> bool;

    /// The whole tile memory (a white 64 by 384 picture for now).
    fn render_all_background_tiles(&self, fetcher: VRAMFetcher) -> Picture;

    /// The 256 background tiles as a 16 by 16 grid.
    fn render_background_tilemap(&self, fetcher: VRAMFetcher) -> Picture
        requires
            self.video_readable(),
    ;
}

/// The colour that the debugger draws for a two-bit colour number: 0 is
/// white, 3 is black, alpha always opaque.
pub open spec fn debug_shade(code: u16) -> Colour {
    if code == 0 {
        (255, 255, 255, 255)
    } else if code == 1 {
        (180, 180, 180, 255)
    } else if code == 2 {
        (90, 90, 90, 255)
    } else {
        (0, 0, 0, 255)
    }
}

/// The colour number of pixel `column` (0 at the left) of a tile row whose
/// two bytes are `data0` (low bits) and `data1` (high bits).
pub open spec fn pixel_code(data0: u8, data1: u8, column: int) -> u16 {
    let bit = (7 - column) as u8;
    (2 * bit_of(data1, bit) + bit_of(data0, bit)) as u16
}

/// The start of the tile data that bit 4 of the LCD control register selects.
pub open spec fn tiles_base(lcdc: u8) -> u16 {
    if (lcdc / 16) % 2 == 1 { 0x8800 } else { 0x8000 }
}

/// The address of the first byte of row `row` of tile `tile`.
pub open spec fn row_address(base: u16, tile: int, row: int) -> u16 {
    (base + row * 2 + tile * 16) as u16
}

/// The colour of pixel `(x, y)` of the tile grid: tile `x / 8 + 16 * (y / 8)`,
/// row `y % 8`, column `x % 8`.
pub open spec fn tilemap_pixel<M: MapsMemory>(memory: &M, base: u16, x: int, y: int) -> Colour {
    let address = row_address(base, x / 8 + (y / 8) * 16, y % 8);
    debug_shade(pixel_code(byte_at(memory, address), byte_at(memory, (address + 1) as u16), x % 8))
}

/// Every byte of the tile data that the grid shows can be read, and so
/// can the LCD control register.
pub open spec fn tilemap_readable<M: MapsMemory>(memory: &M) -> bool {
    &&& readable(memory, LCDC_REGISTER)
    &&& forall|a: u16| tiles_base(byte_at(memory, LCDC_REGISTER)) <= a < tiles_base(byte_at(memory, LCDC_REGISTER)) + 0x1000
        ==> #[trigger] readable(memory, a)
}

/// The order in which the grid is drawn: row `y % 8` of tile `(x / 8, y / 8)`.
pub open spec fn draw_index(x: int, y: int) -> int {
    (y / 8) * 128 + (x / 8) * 8 + y % 8
}

/// The two-bit fields of a combined tile row are the colour numbers of its
/// pixels.
proof fn lemma_combined(data0: u8, data1: u8, result: u16)
    by (bit_vector)
    requires
        result == 0u16
            | (((((data1 >> 7u8) & 1u8) << 1u8) | ((data0 >> 7u8) & 1u8)) as u16) << 14u16
            | (((((data1 >> 6u8) & 1u8) << 1u8) | ((data0 >> 6u8) & 1u8)) as u16) << 12u16
            | (((((data1 >> 5u8) & 1u8) << 1u8) | ((data0 >> 5u8) & 1u8)) as u16) << 10u16
            | (((((data1 >> 4u8) & 1u8) << 1u8) | ((data0 >> 4u8) & 1u8)) as u16) << 8u16
            | (((((data1 >> 3u8) & 1u8) << 1u8) | ((data0 >> 3u8) & 1u8)) as u16) << 6u16
            | (((((data1 >> 2u8) & 1u8) << 1u8) | ((data0 >> 2u8) & 1u8)) as u16) << 4u16
            | (((((data1 >> 1u8) & 1u8) << 1u8) | ((data0 >> 1u8) & 1u8)) as u16) << 2u16
            | ((((data1 & 1u8) << 1u8) | (data0 & 1u8)) as u16),
    ensures
        (result >> 14u16) & 3 == (2 * ((data1 >> 7u8) & 1u8) + ((data0 >> 7u8) & 1u8)) as u16,
        (result >> 12u16) & 3 == (2 * ((data1 >> 6u8) & 1u8) + ((data0 >> 6u8) & 1u8)) as u16,
        (result >> 10u16) & 3 == (2 * ((data1 >> 5u8) & 1u8) + ((data0 >> 5u8) & 1u8)) as u16,
        (result >> 8u16) & 3 == (2 * ((data1 >> 4u8) & 1u8) + ((data0 >> 4u8) & 1u8)) as u16,
        (result >> 6u16) & 3 == (2 * ((data1 >> 3u8) & 1u8) + ((data0 >> 3u8) & 1u8)) as u16,
        (result >> 4u16) & 3 == (2 * ((data1 >> 2u8) & 1u8) + ((data0 >> 2u8) & 1u8)) as u16,
        (result >> 2u16) & 3 == (2 * ((data1 >> 1u8) & 1u8) + ((data0 >> 1u8) & 1u8)) as u16,
        (result >> 0u16) & 3 == (2 * ((data1 >> 0u8) & 1u8) + ((data0 >> 0u8) & 1u8)) as u16,
{
}

/// The pixels of the tile grid picture.
pub open spec fn grid() -> Set<(u32, u32)> {
    Set::new(|p: (u32, u32)| p.0 < PIXEL_WIDTH && p.1 < PIXEL_HEIGHT)
}

/// The first `count` tile rows are drawn on `pixels`, the rest is white.
pub open spec fn drawn<M: MapsMemory>(pixels: Map<(u32, u32), Colour>, memory: &M, base: u16, count: int) -> bool {
    &&& pixels.dom() == grid()
    &&& forall|x: u32, y: u32| x < PIXEL_WIDTH && y < PIXEL_HEIGHT ==> #[trigger] pixels[(x, y)]
        == if draw_index(x as int, y as int) < count { tilemap_pixel(memory, base, x as int, y as int) } else { debug_shade(0) }
}

/// Colour `k` (0 to 7) of a row of eight colours.
pub open spec fn row_colour(row: (Colour, Colour, Colour, Colour, Colour, Colour, Colour, Colour), k: int) -> Colour {
    if k == 0 { row.0 } else if k == 1 { row.1 } else if k == 2 { row.2 } else if k == 3 { row.3 }
    else if k == 4 { row.4 } else if k == 5 { row.5 } else if k == 6 { row.6 } else { row.7 }
}

/// Puts the eight colours of `row` at `(x0..x0 + 8, y)`.
fn draw_row(image: &mut Picture, x0: u32, y: u32, row: (Colour, Colour, Colour, Colour, Colour, Colour, Colour, Colour))
    requires
        x0 + 8 <= picture_size(*old(image)).0,
        y < picture_size(*old(image)).1,
    ensures
        picture_size(*final(image)) == picture_size(*old(image)),
        picture_pixels(*final(image)).dom() == picture_pixels(*old(image)).dom().union(
            Set::new(|p: (u32, u32)| x0 <= p.0 < x0 + 8 && p.1 == y)),
        forall|p: (u32, u32)| #[trigger] picture_pixels(*final(image))[p]
            == if p.1 == y && x0 <= p.0 < x0 + 8 { row_colour(row, p.0 - x0) } else { picture_pixels(*old(image))[p] },
{
    let ghost before = picture_pixels(*image);
    picture_put_pixel(image, x0, y, row.0);
    picture_put_pixel(image, x0 + 1, y, row.1);
    picture_put_pixel(image, x0 + 2, y, row.2);
    picture_put_pixel(image, x0 + 3, y, row.3);
    picture_put_pixel(image, x0 + 4, y, row.4);
    picture_put_pixel(image, x0 + 5, y, row.5);
    picture_put_pixel(image, x0 + 6, y, row.6);
    picture_put_pixel(image, x0 + 7, y, row.7);
    assert(picture_pixels(*image).dom() =~= before.dom().union(Set::new(|p: (u32, u32)| x0 <= p.0 < x0 + 8 && p.1 == y)));
}

/// Drawing tile row `i` keeps the first `i` rows and adds row `i`.
proof fn lemma_draw_step<M: MapsMemory>(
    memory: &M,
    base: u16,
    i: int,
    before: Map<(u32, u32), Colour>,
    after: Map<(u32, u32), Colour>,
    x0: u32,
    y: u32,
    address: u16,
    data0: u8,
    data1: u8,
    row: (Colour, Colour, Colour, Colour, Colour, Colour, Colour, Colour),
)
    requires
        0 <= i < 2048,
        drawn(before, memory, base, i),
        x0 == ((i / 8) % 16) * 8,
        y == (i / 128) * 8 + i % 8,
        address == row_address(base, i / 8, i % 8),
        data0 == byte_at(memory, address),
        data1 == byte_at(memory, (address + 1) as u16),
        forall|k: int| 0 <= k < 8 ==> #[trigger] row_colour(row, k) == debug_shade(pixel_code(data0, data1, k)),
        after.dom() == before.dom().union(Set::new(|p: (u32, u32)| x0 <= p.0 < x0 + 8 && p.1 == y)),
        forall|p: (u32, u32)| #[trigger] after[p]
            == if p.1 == y && x0 <= p.0 < x0 + 8 { row_colour(row, p.0 - x0) } else { before[p] },
    ensures
        drawn(after, memory, base, i + 1),
{
    assert(after.dom() =~= grid());
    assert forall|x: u32, yy: u32| x < PIXEL_WIDTH && yy < PIXEL_HEIGHT implies #[trigger] after[(x, yy)]
        == if draw_index(x as int, yy as int) < i + 1 { tilemap_pixel(memory, base, x as int, yy as int) } else { debug_shade(0) } by {
        assert(after[(x, yy)] == if (x, yy).1 == y && x0 <= (x, yy).0 < x0 + 8 { row_colour(row, (x, yy).0 - x0) } else { before[(x, yy)] });
        if yy == y && x0 <= x < x0 + 8 {
            assert(x as int / 8 == (i / 8) % 16);
            assert(yy as int / 8 == i / 128);
            assert(yy as int % 8 == i % 8);
            assert(x as int % 8 == x - x0);
            assert(row_colour(row, x - x0) == debug_shade(pixel_code(data0, data1, x - x0)));
        } else {
            assert(draw_index(x as int, yy as int) != i);
        }
    }
}

/// Draws the tiles of the video memory.
#[derive(Clone, Copy)]
pub struct VRAMFetcher {}

impl VRAMFetcher {
    /// The whole tile memory: a white 64 by 384 picture for now.
    pub fn render_all_background_tiles<M: MapsMemory>(&self, memory: &M) -> (r: Picture)
        ensures
            picture_size(r) == (64u32, 384u32),
            picture_pixels(r) == crate::gpu::image_buffer::uniform_pixels(64, 384, debug_shade(0)),
    {
        picture_from_pixel(64, 384, (255, 255, 255, 255))
    }

    /// The 256 background tiles of the selected tile data as a 16 by 16 grid.
    pub fn render_background_tilemap<M: MapsMemory>(&self, memory: &M) -> (r: Picture)
        requires
            memory.wf(),
            tilemap_readable(memory),
        ensures
            picture_size(r) == (PIXEL_WIDTH, PIXEL_HEIGHT),
            picture_pixels(r).dom() == grid(),
            forall|x: u32, y: u32| x < PIXEL_WIDTH && y < PIXEL_HEIGHT ==> #[trigger] picture_pixels(r)[(x, y)]
                == tilemap_pixel(memory, tiles_base(byte_at(memory, LCDC_REGISTER)), x as int, y as int),
    {
        let mut image = picture_from_pixel(PIXEL_WIDTH, PIXEL_HEIGHT, (255, 255, 255, 255));
        let lcd_control_register = read_memory(memory, LCDC_REGISTER);
        assert((lcd_control_register >> 4u8) & 1 == (lcd_control_register / 16) % 2) by (bit_vector);
        let bg_tiles_address: u16 = if (lcd_control_register >> 4) & 1 != 0 { 0x8800 } else { 0x8000 };
        let ghost base = bg_tiles_address;
        proof {
            assert(drawn(picture_pixels(image), memory, base, 0));
        }
        let mut i: u16 = 0;
        while i < 2048
            invariant
                i <= 2048,
                memory.wf(),
                tilemap_readable(memory),
                base == bg_tiles_address,
                base == tiles_base(byte_at(memory, LCDC_REGISTER)),
                picture_size(image) == (PIXEL_WIDTH, PIXEL_HEIGHT),
                drawn(picture_pixels(image), memory, base, i as int),
            decreases 2048 - i,
        {
            let sprite = i / 8;
            let sprite_x = sprite % 16;
            let sprite_y = sprite / 16;
            let pixel_y = i % 8;
            let address = bg_tiles_address + pixel_y * 0x2 + (sprite_x + sprite_y * 16) * 0x10;
            assert(address + 1 < tiles_base(byte_at(memory, LCDC_REGISTER)) + 0x1000);
            let data0 = read_memory(memory, address);
            let data1 = read_memory(memory, address + 1);
            let color_coded = Self::combine_pixels(data0, data1);
            let pixels = Self::create_pixels(color_coded);
            let x0 = (sprite_x * 8) as u32;
            let y = (sprite_y * 8 + pixel_y) as u32;
            let ghost before = picture_pixels(image);
            draw_row(&mut image, x0, y, pixels);
            proof {
                lemma_draw_step(memory, base, i as int, before, picture_pixels(image), x0, y, address, data0, data1, pixels);
            }
            i = i + 1;
        }
        image
    }

    /// The colour numbers of the eight pixels of a tile row, two bits each,
    /// the leftmost pixel in bits 15..14: bit `i` of `data1` and of `data0`
    /// give bits `2i + 1` and `2i`.
    fn combine_pixels(data0: u8, data1: u8) -> (r: u16)
        ensures
            (r >> 14u16) & 3 == pixel_code(data0, data1, 0),
            (r >> 12u16) & 3 == pixel_code(data0, data1, 1),
            (r >> 10u16) & 3 == pixel_code(data0, data1, 2),
            (r >> 8u16) & 3 == pixel_code(data0, data1, 3),
            (r >> 6u16) & 3 == pixel_code(data0, data1, 4),
            (r >> 4u16) & 3 == pixel_code(data0, data1, 5),
            (r >> 2u16) & 3 == pixel_code(data0, data1, 6),
            (r >> 0u16) & 3 == pixel_code(data0, data1, 7),
    {
        let mut result: u16 = 0;
        result |= (((((data1 >> 7) & 1) << 1) | ((data0 >> 7) & 1)) as u16) << 14;
        result |= (((((data1 >> 6) & 1) << 1) | ((data0 >> 6) & 1)) as u16) << 12;
        result |= (((((data1 >> 5) & 1) << 1) | ((data0 >> 5) & 1)) as u16) << 10;
        result |= (((((data1 >> 4) & 1) << 1) | ((data0 >> 4) & 1)) as u16) << 8;
        result |= (((((data1 >> 3) & 1) << 1) | ((data0 >> 3) & 1)) as u16) << 6;
        result |= (((((data1 >> 2) & 1) << 1) | ((data0 >> 2) & 1)) as u16) << 4;
        result |= (((((data1 >> 1) & 1) << 1) | ((data0 >> 1) & 1)) as u16) << 2;
        result |= ((((data1 & 1) << 1) | (data0 & 1)) as u16);
        proof { lemma_combined(data0, data1, result); }
        result
    }

    /// The colours of the eight pixels of a combined tile row, left to right.
    fn create_pixels(color_code: u16) -> (r: (Colour, Colour, Colour, Colour, Colour, Colour, Colour, Colour))
        ensures
            r.0 == debug_shade((color_code >> 14u16) & 3),
            r.1 == debug_shade((color_code >> 12u16) & 3),
            r.2 == debug_shade((color_code >> 10u16) & 3),
            r.3 == debug_shade((color_code >> 8u16) & 3),
            r.4 == debug_shade((color_code >> 6u16) & 3),
            r.5 == debug_shade((color_code >> 4u16) & 3),
            r.6 == debug_shade((color_code >> 2u16) & 3),
            r.7 == debug_shade((color_code >> 0u16) & 3),
    {
        assert(forall|s: u16| #![trigger color_code >> s] (color_code >> s) & 3 <= 3) by (bit_vector);
        assert((color_code >> 0u16) == color_code) by (bit_vector);
        (
            Self::decode_pixel((color_code >> 14) & 0b11),
            Self::decode_pixel((color_code >> 12) & 0b11),
            Self::decode_pixel((color_code >> 10) & 0b11),
            Self::decode_pixel((color_code >> 8) & 0b11),
            Self::decode_pixel((color_code >> 6) & 0b11),
            Self::decode_pixel((color_code >> 4) & 0b11),
            Self::decode_pixel((color_code >> 2) & 0b11),
            Self::decode_pixel(color_code & 0b11),
        )
    }

    /// The colour of a two-bit colour number.
    fn decode_pixel(color_code: u16) -> (r: Colour)
        requires
            color_code <= 3,
        ensures
            r == debug_shade(color_code),
    {
        match color_code {
            0b00 => (255u8, 255u8, 255u8, 255u8),
            0b01 => (180u8, 180u8, 180u8, 255u8),
            0b10 => (90u8, 90u8, 90u8, 255u8),
            _ => (0u8, 0u8, 0u8, 255u8),
        }
    }
}

} // verus!
