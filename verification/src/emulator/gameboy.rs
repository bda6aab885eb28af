//! The emulator: a processor over the loaded cartridge, stepped by its
//! front end, and the picture of the last finished frame.
use vstd::prelude::*;
use crate::debug::vram_fetcher::{
    LCDC_REGISTER, PIXEL_HEIGHT, PIXEL_WIDTH, VRAMFetcher, VramDebugger, tilemap_pixel, tilemap_readable, tiles_base,
};
use crate::processor::bus::law_video_memory_readable;
use crate::util::memory_op::{byte_at, readable};
use crate::gpu::image_buffer::{picture_from_pixel, picture_pixels, picture_size, uniform_pixels, Picture};
use crate::gpu::lcd::{HOR_PIXELS, VER_PIXELS, white};
use crate::gpu::ppu::TICKS_PER_CYCLE;
use crate::mem::cartridge::Cartridge;
use crate::mem::memory::MapsMemory;
use crate::processor::cpu::{CPU, MachineView, initial_bus_for, run_steps};
use crate::processor::interrupt_controller::InterruptController;
use crate::processor::registers::initial_registers;

verus! {

/// What a front end drives.
pub trait Emulator {
    /// The invariant of the emulator.
    spec fn consistent(&self) -> bool;

    /// Runs `steps` steps; `Err` where a step stops the emulator.
    fn step(&mut self, steps: usize) -> (r: Result<(), ()>)
        requires
            old(self).consistent(),
        ensures
            final(self).consistent(),
    ;

    /// Runs the steps of one frame.
    fn render_step(&mut self) -> (r: Result<(), ()>)
        requires
            old(self).consistent(),
        ensures
            final(self).consistent(),
    ;

    /// Starts a processor over `cartridge`.
    fn load_cartridge(&mut self, cartridge: Cartridge)
        requires
            old(self).consistent(),
            cartridge@.mbc.wf(),
        ensures
            final(self).consistent(),
    ;
}

/// The emulator of the handheld: no processor until a cartridge is loaded.
pub struct Gameboy {
    cpu: Option<CPU>,
    boot_rom: Option<Vec<u8>>,
}

impl Gameboy {
    /// The processor, once a cartridge is loaded.
    pub closed spec fn processor(&self) -> Option<CPU> {
        self.cpu
    }

    /// The boot ROM that each loaded cartridge starts with.
    pub closed spec fn boot_rom(&self) -> Option<Vec<u8>> {
        self.boot_rom
    }

    /// An emulator without cartridge that will run `boot_rom` first.
    pub fn new(boot_rom: Option<Vec<u8>>) -> (r: Gameboy)
        requires
            boot_rom matches Some(b) ==> b@.len() < 0xFFFF,
        ensures
            r.processor() is None,
            r.boot_rom() == boot_rom,
            r.consistent(),
    {
        Gameboy { cpu: None, boot_rom }
    }

    /// The title of the loaded game; empty without cartridge.
    pub fn game_title(&self) -> (r: &str)
        ensures
            self.processor() matches Some(cpu) ==> r@ == cpu.bus@.cartridge.header.title,
            self.processor() is None ==> r@ == Seq::<char>::empty(),
    {
        if let Some(cpu) = &self.cpu {
            cpu.game_title()
        } else {
            proof { reveal_strlit(""); }
            ""
        }
    }

    /// A copy of the last finished frame; white without cartridge.
    pub fn screen(&self) -> (r: Picture)
        requires
            self.consistent(),
        ensures
            picture_size(r) == (HOR_PIXELS, VER_PIXELS),
            self.processor() matches Some(cpu) ==> picture_pixels(r) == cpu.bus@.ppu.lcd.frame,
            self.processor() is None ==> picture_pixels(r) == uniform_pixels(HOR_PIXELS, VER_PIXELS, white()),
    {
        if let Some(cpu) = &self.cpu {
            cpu.bus.ppu().frame().image().copy()
        } else {
            picture_from_pixel(HOR_PIXELS, VER_PIXELS, (255, 255, 255, 255))
        }
    }
}

impl Emulator for Gameboy {
    open spec fn consistent(&self) -> bool {
        &&& self.processor() matches Some(cpu) ==> cpu.wf()
        &&& self.boot_rom() matches Some(b) ==> b@.len() < 0xFFFF
    }

    fn step(&mut self, steps: usize) -> (r: Result<(), ()>)
        ensures
            old(self).boot_rom() == final(self).boot_rom(),
            old(self).processor() is None ==> final(self).processor() is None && r is Ok,
            old(self).processor() matches Some(cpu) ==> final(self).processor() is Some && match r {
                Ok(()) => run_steps(cpu.machine(), cpu.cpu_wait_cycles, steps as nat)
                    == Some((final(self).processor()->0.machine(), final(self).processor()->0.cpu_wait_cycles)),
                Err(()) => run_steps(cpu.machine(), cpu.cpu_wait_cycles, steps as nat) is None,
            },
    {
        let mut taken: Option<CPU> = None;
        std::mem::swap(&mut taken, &mut self.cpu);
        match taken {
            Some(mut cpu) => {
                let r = run_cpu_steps(&mut cpu, steps);
                self.cpu = Some(cpu);
                r
            },
            None => Ok(()),
        }
    }

    fn render_step(&mut self) -> (r: Result<(), ()>)
        ensures
            old(self).boot_rom() == final(self).boot_rom(),
            old(self).processor() is None ==> final(self).processor() is None && r is Ok,
            old(self).processor() matches Some(cpu) ==> final(self).processor() is Some && match r {
                Ok(()) => run_steps(cpu.machine(), cpu.cpu_wait_cycles, TICKS_PER_CYCLE as nat)
                    == Some((final(self).processor()->0.machine(), final(self).processor()->0.cpu_wait_cycles)),
                Err(()) => run_steps(cpu.machine(), cpu.cpu_wait_cycles, TICKS_PER_CYCLE as nat) is None,
            },
    {
        self.step(TICKS_PER_CYCLE)
    }

    fn load_cartridge(&mut self, cartridge: Cartridge)
        ensures
            final(self).boot_rom() == old(self).boot_rom(),
            final(self).processor() matches Some(cpu) && cpu.registers@ == initial_registers(old(self).boot_rom() is Some)
                && cpu.cpu_wait_cycles == 0
                && cpu.bus@ == initial_bus_for(cartridge@, old(self).boot_rom())
                && !cpu.interrupt.master_enable,
    {
        let interrupt = InterruptController::new();
        let boot_rom = match &self.boot_rom {
            Some(b) => {
                let copy = b.clone();
                assert(copy@ =~= b@);
                Some(copy)
            },
            None => None,
        };
        self.cpu = Some(CPU::new(interrupt, cartridge, boot_rom));
    }
}

/// Runs `steps` steps of `cpu`, stopping at the first that stops the emulator.
fn run_cpu_steps(cpu: &mut CPU, steps: usize) -> (r: Result<(), ()>)
    requires
        old(cpu).wf(),
    ensures
        final(cpu).wf(),
        match r {
            Ok(()) => run_steps(old(cpu).machine(), old(cpu).cpu_wait_cycles, steps as nat)
                == Some((final(cpu).machine(), final(cpu).cpu_wait_cycles)),
            Err(()) => run_steps(old(cpu).machine(), old(cpu).cpu_wait_cycles, steps as nat) is None,
        },
{
    let ghost start = cpu.machine();
    let ghost start_wait = cpu.cpu_wait_cycles;
    let mut i: usize = 0;
    while i < steps
        invariant
            i <= steps,
            cpu.wf(),
            start == old(cpu).machine(),
            start_wait == old(cpu).cpu_wait_cycles,
            run_steps(start, start_wait, i as nat) == Some((cpu.machine(), cpu.cpu_wait_cycles)),
        decreases steps - i,
    {
        let r = cpu.try_step();
        if r.is_err() {
            proof { lemma_stopped_stays_stopped(start, start_wait, (i + 1) as nat, steps as nat); }
            return Err(());
        }
        i = i + 1;
    }
    Ok(())
}

/// Once a step stops the emulator, every longer run stops too.
proof fn lemma_stopped_stays_stopped(s: MachineView, wait: i64, n: nat, m: nat)
    requires
        n <= m,
        run_steps(s, wait, n) is None,
    ensures
        run_steps(s, wait, m) is None,
    decreases m - n,
{
    if n < m {
        lemma_stopped_stays_stopped(s, wait, n, (m - 1) as nat);
    }
}

impl VramDebugger for Gameboy {
    open spec fn video_readable(&self) -> bool {
        self.processor() matches Some(cpu) ==> cpu.wf()
    }

    fn render_all_background_tiles(&self, fetcher: VRAMFetcher) -> (r: Picture)
        ensures
            self.processor() is Some ==> picture_size(r) == (64u32, 384u32)
                && picture_pixels(r) == uniform_pixels(64, 384, (255u8, 255u8, 255u8, 255u8)),
            self.processor() is None ==> picture_size(r) == (0u32, 0u32)
                && picture_pixels(r) == uniform_pixels(0, 0, (0u8, 0u8, 0u8, 0u8)),
    {
        if let Some(cpu) = &self.cpu {
            return fetcher.render_all_background_tiles(cpu);
        }
        picture_from_pixel(0, 0, (0, 0, 0, 0))
    }

    fn render_background_tilemap(&self, fetcher: VRAMFetcher) -> (r: Picture)
        ensures
            self.processor() matches Some(cpu) ==> picture_size(r) == (PIXEL_WIDTH, PIXEL_HEIGHT)
                && forall|x: u32, y: u32| x < PIXEL_WIDTH && y < PIXEL_HEIGHT ==> #[trigger] picture_pixels(r)[(x, y)]
                    == tilemap_pixel(&cpu, tiles_base(byte_at(&cpu, LCDC_REGISTER)), x as int, y as int),
            self.processor() is None ==> picture_size(r) == (0u32, 0u32)
                && picture_pixels(r) == uniform_pixels(0, 0, (0u8, 0u8, 0u8, 0u8)),
    {
        if let Some(cpu) = &self.cpu {
            proof { lemma_tilemap_readable(cpu); }
            return fetcher.render_background_tilemap(cpu);
        }
        picture_from_pixel(0, 0, (0, 0, 0, 0))
    }
}

/// The tile data and the LCD control register of a processor can be read.
proof fn lemma_tilemap_readable(cpu: &CPU)
    requires
        cpu.wf(),
    ensures
        tilemap_readable(cpu),
{
    law_video_memory_readable(cpu.bus@, LCDC_REGISTER);
    assert forall|a: u16| tiles_base(byte_at(cpu, LCDC_REGISTER)) <= a < tiles_base(byte_at(cpu, LCDC_REGISTER)) + 0x1000
        implies #[trigger] readable(cpu, a) by {
        law_video_memory_readable(cpu.bus@, a);
    }
}

} // verus!
