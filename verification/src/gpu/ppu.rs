//! The pixel processing unit: it walks the lines of the display, fetches the
//! background tiles from video memory and pushes their pixels to the display.
use vstd::prelude::*;
use crate::mem::memory::{Access, MemView, RegionView};
use crate::memory::memory::{MapsMemory, Memory};
use crate::processor::interrupt_controller::InterruptController;
use super::lcd::{LcdView, LCD};

verus! {

/// LCD control register.
pub const LCDC_REGISTER: u16 = 0xFF40;
/// LCD status register.
pub const STAT_REGISTER: u16 = 0xFF41;
/// Vertical scroll.
pub const SCY_REGISTER: u16 = 0xFF42;
/// Horizontal scroll.
pub const SCX_REGISTER: u16 = 0xFF43;
/// The line being drawn.
pub const LY_REGISTER: u16 = 0xFF44;
pub const LYC_REGISTER: u16 = 0xFF45;
pub const WY_REGISTER: u16 = 0xFF4A;
pub const WX_REGISTER: u16 = 0xFF4B;
pub const BGP_REGISTER: u16 = 0xFF47;
pub const OBP0_REGISTER: u16 = 0xFF48;
pub const OBP1_REGISTER: u16 = 0xFF49;

pub const OAM_SEARCH_TICKS: usize = 40;
pub const PIXEL_TRANSFER_AND_HBLANK_TICKS: usize = 188;
pub const LINES_TO_DRAW: usize = 144;
pub const LINES_VBLANK: usize = 10;
/// Ticks of one line: the object search, then the pixel transfer.
pub const TICKS_PER_LINE: usize = OAM_SEARCH_TICKS + PIXEL_TRANSFER_AND_HBLANK_TICKS;
pub const LINES_PER_CYCLE: usize = LINES_TO_DRAW + LINES_VBLANK;
/// Ticks of one frame.
pub const TICKS_PER_CYCLE: usize = 154 * 228;

pub const TILES_IN_LINES: u16 = 0x14;
pub const TILE_LINES: u16 = 0x12;
pub const MAX_TILES: u16 = TILE_LINES * TILES_IN_LINES;

// ------------------------------------------------------------------------
// The pixel queue
// ------------------------------------------------------------------------

/// The pixel queue: two bits of colour per pixel, the next pixel in the two
/// highest bits.
pub struct FifoView {
    pub current_size: usize,
    pub color_queue: u32,
    pub palette_queue: u32,
}

impl FifoView {
    pub open spec fn wf(self) -> bool {
        self.current_size < 16
    }

    /// The colour at the head of the queue.
    pub open spec fn head(self) -> u8 {
        ((self.color_queue >> 30u32) & 0b11u32) as u8
    }

    /// The queue without its head.
    pub open spec fn popped(self) -> FifoView {
        FifoView {
            current_size: (self.current_size - 1) as usize,
            color_queue: (self.color_queue << 2u32) as u32,
            ..self
        }
    }

    /// The queue with eight more pixels.
    pub open spec fn pushed(self, pixels: u16) -> FifoView {
        FifoView {
            current_size: (self.current_size + 8) as usize,
            color_queue: self.color_queue | ((pixels as u32) << ((16 - self.current_size) - 8) as u32),
            ..self
        }
    }
}

/// The queue of pixels on their way to the display.
pub struct PixelFifo {
    current_size: usize,
    color_queue: u32,
    palette_queue: u32,
}

impl View for PixelFifo {
    type V = FifoView;

    closed spec fn view(&self) -> FifoView {
        FifoView { current_size: self.current_size, color_queue: self.color_queue, palette_queue: self.palette_queue }
    }
}

/// Writing a pixel: with eight pixels or more queued the head goes to the
/// display at `(x, line)` and one pixel is counted, else nothing happens.
pub open spec fn write_pixel_spec(fifo: FifoView, lcd: LcdView, x: u32, line: u32) -> (FifoView, LcdView, usize) {
    if fifo.current_size >= 8 {
        (fifo.popped(), LcdView { pixels: lcd.pixels.insert((x, line), super::lcd::shade(fifo.head())), ..lcd }, 1)
    } else {
        (fifo, lcd, 0)
    }
}

impl PixelFifo {
    pub fn new() -> (r: PixelFifo)
        ensures
            r@ == (FifoView { current_size: 0, color_queue: 0, palette_queue: 0 }),
    {
        PixelFifo { current_size: 0, color_queue: 0, palette_queue: 0 }
    }

    /// Sends the head of the queue to pixel `(pixel_in_line, line)` of the
    /// display when eight pixels or more are queued; returns how many pixels
    /// it sent.
    pub fn write_pixel(&mut self, lcd: &mut LCD, pixel_in_line: u32, line: u32) -> (r: usize)
        requires
            old(self)@.wf(),
            old(lcd).wf(),
            old(self)@.current_size >= 8 ==> pixel_in_line < super::lcd::HOR_PIXELS && line < super::lcd::VER_PIXELS,
        ensures
            final(self)@.wf(),
            final(lcd).wf(),
            (final(self)@, final(lcd)@, r) == write_pixel_spec(old(self)@, old(lcd)@, pixel_in_line, line),
    {
        if self.current_size >= 8 {
            let color = self.pop();
            lcd.set_pixel(pixel_in_line, line, color);
            return 1;
        }
        return 0;
    }

    fn pop(&mut self) -> (r: u8)
        requires
            old(self)@.current_size >= 1,
        ensures
            r == old(self)@.head(),
            r <= 3,
            final(self)@ == old(self)@.popped(),
    {
        let q = self.color_queue;
        assert(((q >> 30u32) & 0b11u32) <= 3) by (bit_vector);
        let color = ((self.color_queue >> 30) & 0b11) as u8;
        self.color_queue = self.color_queue << 2;
        self.current_size -= 1;
        color
    }

    /// Queues eight pixels, two bits each, the first in the highest bits.
    pub fn push(&mut self, pixels: u16)
        requires
            old(self)@.current_size < 8,
        ensures
            final(self)@ == old(self)@.pushed(pixels),
    {
        self.color_queue |= (pixels as u32) << ((16 - self.current_size) - 8);
        self.current_size += 8;
    }

    /// Eight more pixels fit.
    pub fn is_free(&self) -> (r: bool)
        ensures
            r == (self@.current_size < 8),
    {
        self.current_size < 8
    }

    fn reset(&mut self)
        ensures
            final(self)@ == (FifoView { current_size: 0, ..old(self)@ }),
    {
        self.current_size = 0;
    }
}

// ------------------------------------------------------------------------
// The tile fetcher
// ------------------------------------------------------------------------

/// The step that the fetcher takes next.
#[derive(PartialEq, Eq, Structural, Copy, Clone, Debug)]
pub enum FetcherStep {
    ReadTile,
    ReadData0,
    ReadData1,
    WriteData,
}

impl FetcherStep {
    pub open spec fn spec_next(self) -> FetcherStep {
        match self {
            FetcherStep::ReadTile => FetcherStep::ReadData0,
            FetcherStep::ReadData0 => FetcherStep::ReadData1,
            FetcherStep::ReadData1 => FetcherStep::WriteData,
            FetcherStep::WriteData => FetcherStep::ReadTile,
        }
    }

    pub fn next(&self) -> (r: FetcherStep)
        ensures
            r == self.spec_next(),
    {
        match self {
            FetcherStep::ReadTile => FetcherStep::ReadData0,
            FetcherStep::ReadData0 => FetcherStep::ReadData1,
            FetcherStep::ReadData1 => FetcherStep::WriteData,
            FetcherStep::WriteData => FetcherStep::ReadTile,
        }
    }
}

/// The state of the tile fetcher.
pub struct FetcherView {
    pub current_tile_address: u16,
    pub current_map_line: u8,
    pub current_step: FetcherStep,
    pub current_tile_number: u16,
    pub data0: u8,
    pub data1: u8,
    pub fetched_palette: u16,
}

/// Eight pixels of two bits each from the two bytes of a tile row: bit `i`
/// of `data1` and of `data0` give the high and low bit of pixel `7 - i`.
pub open spec fn combine(data0: u8, data1: u8) -> u16 {
    ((((((data1 >> 7u8) & 1) << 1u8) | ((data0 >> 7u8) & 1)) as u16) << 14u16)
        | ((((((data1 >> 6u8) & 1) << 1u8) | ((data0 >> 6u8) & 1)) as u16) << 12u16)
        | ((((((data1 >> 5u8) & 1) << 1u8) | ((data0 >> 5u8) & 1)) as u16) << 10u16)
        | ((((((data1 >> 4u8) & 1) << 1u8) | ((data0 >> 4u8) & 1)) as u16) << 8u16)
        | ((((((data1 >> 3u8) & 1) << 1u8) | ((data0 >> 3u8) & 1)) as u16) << 6u16)
        | ((((((data1 >> 2u8) & 1) << 1u8) | ((data0 >> 2u8) & 1)) as u16) << 4u16)
        | ((((((data1 >> 1u8) & 1) << 1u8) | ((data0 >> 1u8) & 1)) as u16) << 2u16)
        | ((((((data1 >> 0u8) & 1) << 1u8) | ((data0 >> 0u8) & 1)) as u16) << 0u16)
}

/// Where the background tile map starts: bit 3 of the control register picks it.
pub open spec fn bg_map_address(lcdc: u8) -> u16 {
    if (lcdc >> 3u8) & 1 == 0 { 0x9800 } else { 0x9C00 }
}

/// Tile data are addressed from `0x8000` (bit 4 of the control register set)
/// or around `0x9000`.
pub open spec fn tiles_from_0x8000(lcdc: u8) -> bool {
    (lcdc >> 4u8) & 1 != 0
}

impl FetcherView {
    pub open spec fn wf(self) -> bool {
        &&& self.current_tile_address <= 20
        &&& self.current_step == FetcherStep::ReadTile ==> self.current_tile_address < 20
        &&& self.current_map_line < 144
        &&& self.current_tile_number <= 255
    }

    /// The address in the tile map of the next tile.
    pub open spec fn tile_map_address(self, io: RegionView) -> u16 {
        (bg_map_address(io.get(LCDC_REGISTER)) + self.current_tile_address
            + ((((self.current_map_line as int + io.get(SCY_REGISTER) as int) % 256) / 8) as u16) * 0x20) as u16
    }

    pub open spec fn read_tile(self, vram: RegionView, io: RegionView) -> FetcherView {
        FetcherView {
            current_tile_number: vram.get(self.tile_map_address(io)) as u16,
            current_tile_address: (self.current_tile_address + 1) as u16,
            current_step: self.current_step.spec_next(),
            ..self
        }
    }

    /// The address of the low byte of the current row of the tile.
    pub open spec fn data0_address(self, io: RegionView) -> u16 {
        if tiles_from_0x8000(io.get(LCDC_REGISTER)) {
            (0x8000 + (self.current_map_line % 8) * 2 + self.current_tile_number * 0x10) as u16
        } else {
            (0x9000 + (self.current_map_line % 8) * 2 + (self.current_tile_number as u8 as i8) * 0x10) as u16
        }
    }

    pub open spec fn read_data0(self, vram: RegionView, io: RegionView) -> FetcherView {
        FetcherView { data0: vram.get(self.data0_address(io)), current_step: self.current_step.spec_next(), ..self }
    }

    /// The address of the high byte of the current row of the tile (the tile
    /// number is taken unsigned also around `0x9000`).
    pub open spec fn data1_address(self, io: RegionView) -> u16 {
        if tiles_from_0x8000(io.get(LCDC_REGISTER)) {
            (0x8001 + (self.current_map_line % 8) * 2 + self.current_tile_number * 0x10) as u16
        } else {
            (0x9001 + (self.current_map_line % 8) * 2 + self.current_tile_number * 0x10) as u16
        }
    }

    /// Writing the fetched row: where eight pixels fit, they are queued, the
    /// fetcher starts the next tile, and after the last tile of a line it
    /// starts over on the next line.
    pub open spec fn write_data(self, fifo: FifoView) -> (FetcherView, FifoView) {
        if fifo.current_size < 8 {
            let f = FetcherView { current_step: self.current_step.spec_next(), ..self };
            let f = if f.current_tile_address % TILES_IN_LINES == 0 && f.current_tile_address != 0 {
                FetcherView {
                    current_tile_address: 0,
                    current_map_line: ((f.current_map_line + 1) % 144) as u8,
                    ..f
                }
            } else {
                f
            };
            (f, fifo.pushed(combine(self.data0, self.data1)))
        } else {
            (self, fifo)
        }
    }

    pub open spec fn read_tile1(self, fifo: FifoView, vram: RegionView, io: RegionView) -> (FetcherView, FifoView) {
        FetcherView { data1: vram.get(self.data1_address(io)), current_step: self.current_step.spec_next(), ..self }.write_data(fifo)
    }

    /// One step of the fetcher.
    pub open spec fn fetch(self, fifo: FifoView, vram: RegionView, io: RegionView) -> (FetcherView, FifoView) {
        match self.current_step {
            FetcherStep::ReadTile => (self.read_tile(vram, io), fifo),
            FetcherStep::ReadData0 => (self.read_data0(vram, io), fifo),
            FetcherStep::ReadData1 => self.read_tile1(fifo, vram, io),
            FetcherStep::WriteData => self.write_data(fifo),
        }
    }
}

/// Fetches background tiles and queues their pixels.
pub struct Fetcher {
    current_tile_address: u16,
    current_map_line: u8,
    current_step: FetcherStep,
    current_tile_number: u16,
    data0: u8,
    data1: u8,
    fetched_palette: u16,
}

impl View for Fetcher {
    type V = FetcherView;

    closed spec fn view(&self) -> FetcherView {
        FetcherView {
            current_tile_address: self.current_tile_address,
            current_map_line: self.current_map_line,
            current_step: self.current_step,
            current_tile_number: self.current_tile_number,
            data0: self.data0,
            data1: self.data1,
            fetched_palette: self.fetched_palette,
        }
    }
}

/// Video memory and the input/output registers as the fetcher reads them.
pub open spec fn fetch_memories_wf(vram: MemView, io: MemView) -> bool {
    &&& vram.access != Access::WriteOnly && vram.region.from == 0x8000 && vram.region.to == 0x9FFF && vram.region.wf()
    &&& io.access != Access::WriteOnly && io.region.from == 0xFF00 && io.region.to == 0xFF7F && io.region.wf()
}

impl Fetcher {
    pub fn new() -> (r: Fetcher)
        ensures
            r@ == (FetcherView {
                current_tile_address: 0,
                current_map_line: 0,
                current_step: FetcherStep::ReadTile,
                current_tile_number: 0,
                data0: 0,
                data1: 0,
                fetched_palette: 0,
            }),
            r@.wf(),
    {
        Fetcher {
            current_step: FetcherStep::ReadTile,
            current_tile_number: 0,
            current_tile_address: 0,
            data0: 0,
            data1: 0,
            fetched_palette: 0,
            current_map_line: 0,
        }
    }

    /// Takes one step of fetching.
    pub fn fetch_tile(&mut self, pixel_fifo: &mut PixelFifo, vram: &Memory, io_registers: &mut Memory)
        requires
            old(self)@.wf(),
            old(pixel_fifo)@.wf(),
            fetch_memories_wf(vram@, old(io_registers)@),
        ensures
            final(self)@.wf(),
            final(pixel_fifo)@.wf(),
            final(io_registers)@ == old(io_registers)@,
            (final(self)@, final(pixel_fifo)@) == old(self)@.fetch(old(pixel_fifo)@, vram@.region, old(io_registers)@.region),
    {
        match self.current_step {
            FetcherStep::ReadTile => self.read_tile(vram, io_registers),
            FetcherStep::ReadData0 => self.read_data0(vram, io_registers),
            FetcherStep::ReadData1 => self.read_tile1(pixel_fifo, vram, io_registers),
            FetcherStep::WriteData => self.write_data(pixel_fifo),
        }
    }

    fn read_tile(&mut self, vram: &Memory, io_registers: &mut Memory)
        requires
            old(self)@.wf(),
            old(self)@.current_step == FetcherStep::ReadTile,
            fetch_memories_wf(vram@, old(io_registers)@),
        ensures
            final(self)@.wf(),
            final(io_registers)@ == old(io_registers)@,
            final(self)@ == old(self)@.read_tile(vram@.region, old(io_registers)@.region),
    {
        let lcd_control_register = io_registers.read(LCDC_REGISTER).unwrap();
        let bg_map_address: u16 = if (lcd_control_register >> 3) & 1 == 0 { 0x9800 } else { 0x9C00 };
        let scx = io_registers.read(SCX_REGISTER).unwrap() as u16;
        let scy = io_registers.read(SCY_REGISTER).unwrap();
        let row = self.current_map_line.wrapping_add(scy) / 8;
        assert(row <= 31);
        let tile_map_address = bg_map_address + self.current_tile_address + (row as u16) * 0x20;
        self.current_tile_number = vram.read(tile_map_address).unwrap() as u16;
        self.current_tile_address = self.current_tile_address + 1;
        self.current_step = self.current_step.next();
    }

    fn read_data0(&mut self, vram: &Memory, io_registers: &mut Memory)
        requires
            old(self)@.wf(),
            old(self)@.current_step == FetcherStep::ReadData0,
            fetch_memories_wf(vram@, old(io_registers)@),
        ensures
            final(self)@.wf(),
            final(io_registers)@ == old(io_registers)@,
            final(self)@ == old(self)@.read_data0(vram@.region, old(io_registers)@.region),
    {
        let lcd_control_register = io_registers.read(LCDC_REGISTER).unwrap();
        let bg_tiles_address: u16 = if (lcd_control_register >> 4) & 1 == 0 { 0x9000 } else { 0x8000 };
        if bg_tiles_address == 0x8000 {
            let address = bg_tiles_address + ((self.current_map_line % 8) * 0x2) as u16 + (self.current_tile_number * 0x10);
            self.data0 = vram.read(address).unwrap();
        } else {
            let mapped_tile = self.current_tile_number as u8 as i8;
            let address = (bg_tiles_address as i32 + ((self.current_map_line as i32 % 8) * 0x2) + (mapped_tile as i32 * 0x10)) as u16;
            self.data0 = vram.read(address).unwrap();
        }
        self.current_step = self.current_step.next();
    }

    fn read_tile1(&mut self, pixel_fifo: &mut PixelFifo, vram: &Memory, io_registers: &mut Memory)
        requires
            old(self)@.wf(),
            old(self)@.current_step == FetcherStep::ReadData1,
            old(pixel_fifo)@.wf(),
            fetch_memories_wf(vram@, old(io_registers)@),
        ensures
            final(self)@.wf(),
            final(pixel_fifo)@.wf(),
            final(io_registers)@ == old(io_registers)@,
            (final(self)@, final(pixel_fifo)@) == old(self)@.read_tile1(old(pixel_fifo)@, vram@.region, old(io_registers)@.region),
    {
        let lcd_control_register = io_registers.read(LCDC_REGISTER).unwrap();
        let bg_tiles_address: u16 = if (lcd_control_register >> 4) & 1 == 0 { 0x9000 } else { 0x8000 } + 1;
        if bg_tiles_address == 0x8001 {
            let address = bg_tiles_address + ((self.current_map_line % 8) * 0x2) as u16 + (self.current_tile_number * 0x10);
            self.data1 = vram.read(address).unwrap();
        } else {
            let address = (bg_tiles_address as i32 + ((self.current_map_line as i32 % 8) * 0x2) + (self.current_tile_number * 0x10) as i32) as u16;
            self.data1 = vram.read(address).unwrap();
        }
        self.current_step = self.current_step.next();
        self.write_data(pixel_fifo);
    }

    fn write_data(&mut self, pixel_fifo: &mut PixelFifo)
        requires
            old(self)@.wf(),
            old(self)@.current_step == FetcherStep::WriteData,
            old(pixel_fifo)@.wf(),
        ensures
            final(self)@.wf(),
            final(pixel_fifo)@.wf(),
            (final(self)@, final(pixel_fifo)@) == old(self)@.write_data(old(pixel_fifo)@),
    {
        if pixel_fifo.is_free() {
            pixel_fifo.push(self.combine_pixels());
            self.current_step = self.current_step.next();
            if self.current_tile_address % TILES_IN_LINES == 0 && self.current_tile_address != 0 {
                self.current_tile_address = 0;
                self.current_map_line = (self.current_map_line + 1) % LINES_TO_DRAW as u8;
            }
        }
    }

    fn combine_pixels(&mut self) -> (r: u16)
        ensures
            r == combine(old(self)@.data0, old(self)@.data1),
            final(self)@ == old(self)@,
    {
        let mut result: u16 = 0;
        result = result | ((((self.data1 >> 7) & 1) << 1 | ((self.data0 >> 7) & 1)) as u16) << 14;
        result = result | ((((self.data1 >> 6) & 1) << 1 | ((self.data0 >> 6) & 1)) as u16) << 12;
        result = result | ((((self.data1 >> 5) & 1) << 1 | ((self.data0 >> 5) & 1)) as u16) << 10;
        result = result | ((((self.data1 >> 4) & 1) << 1 | ((self.data0 >> 4) & 1)) as u16) << 8;
        result = result | ((((self.data1 >> 3) & 1) << 1 | ((self.data0 >> 3) & 1)) as u16) << 6;
        result = result | ((((self.data1 >> 2) & 1) << 1 | ((self.data0 >> 2) & 1)) as u16) << 4;
        result = result | ((((self.data1 >> 1) & 1) << 1 | ((self.data0 >> 1) & 1)) as u16) << 2;
        result = result | ((((self.data1 >> 0) & 1) << 1 | ((self.data0 >> 0) & 1)) as u16) << 0;
        let (d0, d1) = (self.data0, self.data1);
        assert(result == combine(d0, d1)) by (bit_vector)
            requires result == 0u16
                | ((((((d1 >> 7u8) & 1) << 1u8) | ((d0 >> 7u8) & 1)) as u16) << 14u16)
                | ((((((d1 >> 6u8) & 1) << 1u8) | ((d0 >> 6u8) & 1)) as u16) << 12u16)
                | ((((((d1 >> 5u8) & 1) << 1u8) | ((d0 >> 5u8) & 1)) as u16) << 10u16)
                | ((((((d1 >> 4u8) & 1) << 1u8) | ((d0 >> 4u8) & 1)) as u16) << 8u16)
                | ((((((d1 >> 3u8) & 1) << 1u8) | ((d0 >> 3u8) & 1)) as u16) << 6u16)
                | ((((((d1 >> 2u8) & 1) << 1u8) | ((d0 >> 2u8) & 1)) as u16) << 4u16)
                | ((((((d1 >> 1u8) & 1) << 1u8) | ((d0 >> 1u8) & 1)) as u16) << 2u16)
                | ((((((d1 >> 0u8) & 1) << 1u8) | ((d0 >> 0u8) & 1)) as u16) << 0u16);
        result
    }

    fn reset(&mut self)
        requires
            old(self)@.wf(),
        ensures
            final(self)@ == (FetcherView {
                current_tile_address: 0,
                current_map_line: 0,
                current_step: FetcherStep::ReadTile,
                ..old(self)@
            }),
            final(self)@.wf(),
    {
        self.current_tile_address = 0;
        self.current_map_line = 0;
        self.current_step = FetcherStep::ReadTile;
    }
}

// ------------------------------------------------------------------------
// The pixel processing unit
// ------------------------------------------------------------------------

/// The state of the pixel processing unit.
pub struct PpuView {
    pub memory: MemView,
    pub oam: MemView,
    pub lcd: LcdView,
    pub pixel_fifo: FifoView,
    pub fetcher: FetcherView,
    pub current_tick: usize,
    pub current_pixel: usize,
    pub valid_objects_count: usize,
    pub vblank_set: bool,
}

/// The input/output registers as the pixel processing unit uses them.
pub open spec fn io_registers_wf(io: MemView) -> bool {
    io.access == Access::ReadWrite && io.region.from == 0xFF00 && io.region.to == 0xFF7F && io.region.wf()
}

impl PpuView {
    pub open spec fn wf(self) -> bool {
        &&& self.core_wf()
        &&& self.current_pixel <= 188
        &&& self.current_tick % 228 > 40 ==> self.current_pixel <= self.current_tick % 228 - 40
    }

    /// The invariant without the bound of the pixel counter.
    pub open spec fn core_wf(self) -> bool {
        &&& self.memory.access == Access::ReadWrite && self.memory.region.from == 0x8000
            && self.memory.region.to == 0x9FFF && self.memory.region.wf()
        &&& self.oam.access == Access::ReadWrite && self.oam.region.from == 0xFE00
            && self.oam.region.to == 0xFE9F && self.oam.region.wf()
        &&& self.pixel_fifo.wf()
        &&& self.fetcher.wf()
        &&& self.current_tick <= TICKS_PER_CYCLE
    }

    /// One tick of pixel transfer on the line that the tick counter gives:
    /// the line goes to the LY register; on a visible line a fetcher step on
    /// odd ticks and a pixel to the display while the line is not full; on
    /// the first line after the visible ones the frame is handed on once.
    pub open spec fn pixel_transfer(self, io: MemView) -> (PpuView, MemView) {
        let line = (self.current_tick / 228) as u8;
        let io1 = MemView { region: io.region.store(LY_REGISTER, line), ..io };
        let p = if (self.current_tick - 40) % 228 == 0 { PpuView { current_pixel: 0, ..self } } else { self };
        if (line as usize) < LINES_TO_DRAW {
            if p.current_pixel < 160 {
                let (fetcher, fifo) = if p.current_tick % 2 == 1 {
                    p.fetcher.fetch(p.pixel_fifo, p.memory.region, io1.region)
                } else {
                    (p.fetcher, p.pixel_fifo)
                };
                let (fifo2, lcd2, n) = write_pixel_spec(fifo, p.lcd, p.current_pixel as u32, line as u32);
                (PpuView { fetcher, pixel_fifo: fifo2, lcd: lcd2, current_pixel: (p.current_pixel + n) as usize, ..p }, io1)
            } else {
                (PpuView { current_pixel: (p.current_pixel + 1) as usize, ..p }, io1)
            }
        } else if line as usize == LINES_TO_DRAW {
            if !p.vblank_set {
                (PpuView { vblank_set: true, lcd: LcdView { frame: p.lcd.pixels, ..p.lcd }, ..p }, io1)
            } else {
                (p, io1)
            }
        } else {
            (p, io1)
        }
    }

    /// One tick: the first 40 ticks of a line search objects (nothing yet),
    /// the rest transfer pixels; after the last tick of a frame the counters,
    /// the queue and the fetcher start over.
    pub open spec fn step(self, io: MemView) -> (PpuView, MemView) {
        let (p, io1) = if self.current_tick % 228 < 40 { (self, io) } else { self.pixel_transfer(io) };
        if p.current_tick < TICKS_PER_CYCLE {
            (PpuView { current_tick: (p.current_tick + 1) as usize, ..p }, io1)
        } else {
            (PpuView {
                current_tick: 0,
                vblank_set: false,
                pixel_fifo: FifoView { current_size: 0, ..p.pixel_fifo },
                fetcher: FetcherView {
                    current_tile_address: 0,
                    current_map_line: 0,
                    current_step: FetcherStep::ReadTile,
                    ..p.fetcher
                },
                ..p
            }, io1)
        }
    }

    pub open spec fn in_range(self, address: u16) -> bool {
        self.memory.region.contains(address) || self.oam.region.contains(address)
    }

    /// Video memory at `0x8000..=0x9FFF` and object memory at `0xFE00..=0xFE9F`.
    pub open spec fn read(self, address: u16) -> Result<u8, ()> {
        if self.memory.region.contains(address) {
            Ok(self.memory.region.get(address))
        } else if self.oam.region.contains(address) {
            Ok(self.oam.region.get(address))
        } else {
            Err(())
        }
    }

    pub open spec fn write(self, address: u16, value: u8) -> PpuView {
        if self.memory.region.contains(address) {
            PpuView { memory: MemView { region: self.memory.region.store(address, value), ..self.memory }, ..self }
        } else if self.oam.region.contains(address) {
            PpuView { oam: MemView { region: self.oam.region.store(address, value), ..self.oam }, ..self }
        } else {
            self
        }
    }
}

/// The state of a new pixel processing unit: zeroed video and object memory,
/// a white display, an empty queue, tick zero.
pub open spec fn initial_ppu() -> PpuView {
    PpuView {
        memory: MemView { access: Access::ReadWrite, region: RegionView::filled(Seq::empty(), 0x8000, 0x9FFF) },
        oam: MemView { access: Access::ReadWrite, region: RegionView::filled(Seq::empty(), 0xFE00, 0xFE9F) },
        lcd: LcdView {
            pixels: super::image_buffer::uniform_pixels(super::lcd::HOR_PIXELS, super::lcd::VER_PIXELS, super::lcd::white()),
            frame: super::image_buffer::uniform_pixels(super::lcd::HOR_PIXELS, super::lcd::VER_PIXELS, super::lcd::white()),
        },
        pixel_fifo: FifoView { current_size: 0, color_queue: 0, palette_queue: 0 },
        fetcher: FetcherView {
            current_tile_address: 0,
            current_map_line: 0,
            current_step: FetcherStep::ReadTile,
            current_tile_number: 0,
            data0: 0,
            data1: 0,
            fetched_palette: 0,
        },
        current_tick: 0,
        current_pixel: 0,
        valid_objects_count: 0,
        vblank_set: false,
    }
}

/// The pixel processing unit with its video memory, object memory and display.
pub struct PixelProcessingUnit {
    memory: Memory,
    oam: Memory,
    lcd: LCD,
    pixel_fifo: PixelFifo,
    fetcher: Fetcher,
    current_tick: usize,
    current_pixel: usize,
    valid_objects: [usize; 10],
    valid_objects_count: usize,
    vblank_set: bool,
}

impl View for PixelProcessingUnit {
    type V = PpuView;

    closed spec fn view(&self) -> PpuView {
        PpuView {
            memory: self.memory@,
            oam: self.oam@,
            lcd: self.lcd@,
            pixel_fifo: self.pixel_fifo@,
            fetcher: self.fetcher@,
            current_tick: self.current_tick,
            current_pixel: self.current_pixel,
            valid_objects_count: self.valid_objects_count,
            vblank_set: self.vblank_set,
        }
    }
}

impl PixelProcessingUnit {
    pub closed spec fn wf(&self) -> bool {
        self@.wf() && self.lcd.wf()
    }

    /// The display is well formed.
    pub closed spec fn display_wf(&self) -> bool {
        self.lcd.wf()
    }

    /// Zeroed video and object memory, a white display, tick zero.
    pub fn new() -> (r: PixelProcessingUnit)
        ensures
            r.wf(),
            r@ == initial_ppu(),
            r@.memory == (MemView { access: Access::ReadWrite, region: RegionView::filled(Seq::empty(), 0x8000, 0x9FFF) }),
            r@.oam == (MemView { access: Access::ReadWrite, region: RegionView::filled(Seq::empty(), 0xFE00, 0xFE9F) }),
            r@.lcd == (LcdView {
                pixels: super::image_buffer::uniform_pixels(super::lcd::HOR_PIXELS, super::lcd::VER_PIXELS, super::lcd::white()),
                frame: super::image_buffer::uniform_pixels(super::lcd::HOR_PIXELS, super::lcd::VER_PIXELS, super::lcd::white()),
            }),
            r@.pixel_fifo == (FifoView { current_size: 0, color_queue: 0, palette_queue: 0 }),
            r@.fetcher == (FetcherView {
                current_tile_address: 0,
                current_map_line: 0,
                current_step: FetcherStep::ReadTile,
                current_tile_number: 0,
                data0: 0,
                data1: 0,
                fetched_palette: 0,
            }),
            r@.current_tick == 0,
            r@.current_pixel == 0,
            r@.valid_objects_count == 0,
            !r@.vblank_set,
    {
        let empty: Vec<u8> = Vec::new();
        let memory = Memory::new_read_write(empty.as_slice(), 0x8000, 0x9FFF);
        let oam = Memory::new_read_write(empty.as_slice(), 0xFE00, 0xFE9F);
        let lcd = LCD::new();
        let pixel_fifo = PixelFifo::new();
        let fetcher = Fetcher::new();
        PixelProcessingUnit {
            memory,
            oam,
            lcd,
            pixel_fifo,
            fetcher,
            current_tick: 0,
            current_pixel: 0,
            valid_objects: [0, 0, 0, 0, 0, 0, 0, 0, 0, 0],
            valid_objects_count: 0,
            vblank_set: false,
        }
    }

    /// One tick of the unit.
    pub fn step(&mut self, io_registers: &mut Memory, interrupt: &mut InterruptController)
        requires
            old(self).wf(),
            io_registers_wf(old(io_registers)@),
        ensures
            final(self).wf(),
            io_registers_wf(final(io_registers)@),
            (final(self)@, final(io_registers)@) == old(self)@.step(old(io_registers)@),
            *final(interrupt) == *old(interrupt),
    {
        if self.current_tick % TICKS_PER_LINE < OAM_SEARCH_TICKS {
            self.oam_search(io_registers);
        } else {
            self.pixel_transfer(io_registers);
        }
        if self.current_tick < TICKS_PER_CYCLE {
            let tick = self.current_tick;
            assert((tick + 1) % 228 == if tick % 228 == 227 { 0 } else { tick % 228 + 1 }) by (nonlinear_arith);
            self.current_tick += 1;
        } else {
            self.current_tick = 0;
            self.vblank_set = false;
            self.pixel_fifo.reset();
            self.fetcher.reset();
        }
    }

    /// The search for the objects of the line; it does nothing yet.
    pub fn oam_search(&mut self, io_registers: &mut Memory)
        ensures
            final(self)@ == old(self)@,
            final(self).wf() == old(self).wf(),
            final(io_registers)@ == old(io_registers)@,
    {
    }

    /// One tick of pixel transfer.
    pub fn pixel_transfer(&mut self, io_registers: &mut Memory)
        requires
            old(self).wf(),
            old(self)@.current_tick % 228 >= 40,
            io_registers_wf(old(io_registers)@),
        ensures
            final(self)@.core_wf(),
            final(self).display_wf(),
            final(self)@.current_pixel <= 188,
            final(self)@.current_pixel <= final(self)@.current_tick % 228 - 39,
            final(self)@.current_tick == old(self)@.current_tick,
            io_registers_wf(final(io_registers)@),
            (final(self)@, final(io_registers)@) == old(self)@.pixel_transfer(old(io_registers)@),
    {
        let line = (self.current_tick / TICKS_PER_LINE) as u8;
        io_registers.write(LY_REGISTER, line).unwrap();
        if (self.current_tick - OAM_SEARCH_TICKS) % TICKS_PER_LINE == 0 {
            self.current_pixel = 0;
        }
        if (line as usize) < LINES_TO_DRAW {
            if self.current_pixel < 160 {
                if self.current_tick % 2 == 1 {
                    self.fetcher.fetch_tile(&mut self.pixel_fifo, &self.memory, io_registers);
                }
                let written = self.pixel_fifo.write_pixel(&mut self.lcd, self.current_pixel as u32, line as u32);
                self.current_pixel += written;
            } else if self.current_pixel == 160 {
                self.current_pixel += 1;
            } else {
                self.current_pixel += 1;
            }
        } else if line as usize == LINES_TO_DRAW {
            if !self.vblank_set {
                self.vblank_set = true;
                self.lcd.display();
            }
        }
    }

    /// The finished frame.
    pub fn frame(&self) -> (r: &super::lcd::LCDFetcher)
        ensures
            r.frame() == self@.lcd.frame,
            self.wf() ==> r.wf(),
    {
        self.lcd.frame()
    }
}

impl MapsMemory for PixelProcessingUnit {
    open spec fn wf(&self) -> bool {
        self.wf()
    }

    open spec fn read_defined(&self, address: u16) -> bool {
        true
    }

    open spec fn read_spec(&self, address: u16) -> Result<u8, ()> {
        self@.read(address)
    }

    open spec fn write_defined(&self, address: u16, value: u8) -> bool {
        true
    }

    open spec fn write_spec(&self, address: u16, value: u8) -> Result<(), ()> {
        if self@.in_range(address) { Ok(()) } else { Err(()) }
    }

    open spec fn written(&self, after: &Self, address: u16, value: u8) -> bool {
        after@ == self@.write(address, value)
    }

    open spec fn in_range(&self, address: u16) -> bool {
        self@.in_range(address)
    }

    fn read(&self, address: u16) -> (r: Result<u8, ()>) {
        if self.memory.is_in_range(address) {
            self.memory.read(address)
        } else if self.oam.is_in_range(address) {
            self.oam.read(address)
        } else {
            Err(())
        }
    }

    fn write(&mut self, address: u16, value: u8) -> (r: Result<(), ()>) {
        if self.memory.is_in_range(address) {
            self.memory.write(address, value)
        } else if self.oam.is_in_range(address) {
            self.oam.write(address, value)
        } else {
            Err(())
        }
    }

    fn is_in_range(&self, address: u16) -> (r: bool) {
        let vram = self.memory.is_in_range(address);
        let oam = self.oam.is_in_range(address);
        vram || oam
    }
}

/// The two bits of pixel `k` of a combined tile row, pixel 0 in the top bits.
pub open spec fn row_field(row: u16, k: int) -> u16 {
    (row >> ((14 - 2 * k) as u16)) & 3u16
}

/// The fetcher's combined row holds, for every pixel `k` of the tile row,
/// the same colour number as the tile debugger reads: bit `7 - k` of the
/// high byte `data1` as the high bit, bit `7 - k` of the low byte `data0` as
/// the low bit.
pub proof fn law_combined_row_colours(data0: u8, data1: u8)
    ensures
        forall|k: int| 0 <= k < 8 ==> #[trigger] row_field(combine(data0, data1), k)
            == crate::debug::vram_fetcher::pixel_code(data0, data1, k),
{
    lemma_combine_fields(data0, data1);
    assert forall|k: int| 0 <= k < 8 implies #[trigger] row_field(combine(data0, data1), k)
        == crate::debug::vram_fetcher::pixel_code(data0, data1, k) by {
        let c = combine(data0, data1);
        let b = (7 - k) as u8;
        assert(crate::debug::vram_fetcher::pixel_code(data0, data1, k)
            == (2 * ((data1 >> b) & 1) + ((data0 >> b) & 1)) as u16);
        assert(row_field(c, k) == (c >> ((14 - 2 * k) as u16)) & 3u16);
        if k == 7 {
            assert((c >> 0u16) == c) by (bit_vector);
            assert((data1 >> 0u8) == data1 && (data0 >> 0u8) == data0) by (bit_vector);
        }
    }
}

/// Each two-bit field of a combined row, one bit from each byte.
proof fn lemma_combine_fields(d0: u8, d1: u8)
    ensures
        (combine(d0, d1) >> 14u16) & 3u16 == (2 * ((d1 >> 7u8) & 1) + ((d0 >> 7u8) & 1)) as u16,
        (combine(d0, d1) >> 12u16) & 3u16 == (2 * ((d1 >> 6u8) & 1) + ((d0 >> 6u8) & 1)) as u16,
        (combine(d0, d1) >> 10u16) & 3u16 == (2 * ((d1 >> 5u8) & 1) + ((d0 >> 5u8) & 1)) as u16,
        (combine(d0, d1) >> 8u16) & 3u16 == (2 * ((d1 >> 4u8) & 1) + ((d0 >> 4u8) & 1)) as u16,
        (combine(d0, d1) >> 6u16) & 3u16 == (2 * ((d1 >> 3u8) & 1) + ((d0 >> 3u8) & 1)) as u16,
        (combine(d0, d1) >> 4u16) & 3u16 == (2 * ((d1 >> 2u8) & 1) + ((d0 >> 2u8) & 1)) as u16,
        (combine(d0, d1) >> 2u16) & 3u16 == (2 * ((d1 >> 1u8) & 1) + ((d0 >> 1u8) & 1)) as u16,
        combine(d0, d1) & 3u16 == (2 * (d1 & 1) + (d0 & 1)) as u16,
{
    let c = combine(d0, d1);
    assert(c == ((((((d1 >> 7u8) & 1) << 1u8) | ((d0 >> 7u8) & 1)) as u16) << 14u16)
        | ((((((d1 >> 6u8) & 1) << 1u8) | ((d0 >> 6u8) & 1)) as u16) << 12u16)
        | ((((((d1 >> 5u8) & 1) << 1u8) | ((d0 >> 5u8) & 1)) as u16) << 10u16)
        | ((((((d1 >> 4u8) & 1) << 1u8) | ((d0 >> 4u8) & 1)) as u16) << 8u16)
        | ((((((d1 >> 3u8) & 1) << 1u8) | ((d0 >> 3u8) & 1)) as u16) << 6u16)
        | ((((((d1 >> 2u8) & 1) << 1u8) | ((d0 >> 2u8) & 1)) as u16) << 4u16)
        | ((((((d1 >> 1u8) & 1) << 1u8) | ((d0 >> 1u8) & 1)) as u16) << 2u16)
        | ((((((d1 >> 0u8) & 1) << 1u8) | ((d0 >> 0u8) & 1)) as u16) << 0u16));
    assert(
        (c >> 14u16) & 3u16 == (2 * ((d1 >> 7u8) & 1) + ((d0 >> 7u8) & 1)) as u16
        && (c >> 12u16) & 3u16 == (2 * ((d1 >> 6u8) & 1) + ((d0 >> 6u8) & 1)) as u16
        && (c >> 10u16) & 3u16 == (2 * ((d1 >> 5u8) & 1) + ((d0 >> 5u8) & 1)) as u16
        && (c >> 8u16) & 3u16 == (2 * ((d1 >> 4u8) & 1) + ((d0 >> 4u8) & 1)) as u16
        && (c >> 6u16) & 3u16 == (2 * ((d1 >> 3u8) & 1) + ((d0 >> 3u8) & 1)) as u16
        && (c >> 4u16) & 3u16 == (2 * ((d1 >> 2u8) & 1) + ((d0 >> 2u8) & 1)) as u16
        && (c >> 2u16) & 3u16 == (2 * ((d1 >> 1u8) & 1) + ((d0 >> 1u8) & 1)) as u16
        && c & 3u16 == (2 * (d1 & 1) + (d0 & 1)) as u16
    ) by (bit_vector)
        requires
            c == ((((((d1 >> 7u8) & 1) << 1u8) | ((d0 >> 7u8) & 1)) as u16) << 14u16)
                | ((((((d1 >> 6u8) & 1) << 1u8) | ((d0 >> 6u8) & 1)) as u16) << 12u16)
                | ((((((d1 >> 5u8) & 1) << 1u8) | ((d0 >> 5u8) & 1)) as u16) << 10u16)
                | ((((((d1 >> 4u8) & 1) << 1u8) | ((d0 >> 4u8) & 1)) as u16) << 8u16)
                | ((((((d1 >> 3u8) & 1) << 1u8) | ((d0 >> 3u8) & 1)) as u16) << 6u16)
                | ((((((d1 >> 2u8) & 1) << 1u8) | ((d0 >> 2u8) & 1)) as u16) << 4u16)
                | ((((((d1 >> 1u8) & 1) << 1u8) | ((d0 >> 1u8) & 1)) as u16) << 2u16)
                | ((((((d1 >> 0u8) & 1) << 1u8) | ((d0 >> 0u8) & 1)) as u16) << 0u16);
}

} // verus!
