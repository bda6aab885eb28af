//! Tests of the bus, the cartridges, the memory maps, the debugger and the
//! emulator front: each law on concrete values, the edge cases, the errors.
use rustboy::debug::vram_fetcher::VRAMFetcher;
use rustboy::debug::vram_fetcher::VramDebugger;
use rustboy::gpu::lcd::{HOR_PIXELS, VER_PIXELS};
use rustboy::mem::cartridge::Cartridge;
use rustboy::mem::memory::{MapsMemory, Memory};
use rustboy::memory::memory::Memory as AccessMemory;
use rustboy::memory::cartridge::{CartridgeHeader, CardridgeType, RamSize, RomSize, MBC1, ROM as BankedRom};
use rustboy::memory_map::Memory as MemoryMap;
use rustboy::processor::cpu::CPU;
use rustboy::processor::interrupt_controller::InterruptController;
use rustboy::processor::opcodes::{execute, try_execute};
use rustboy::rom::ROM;
use rustboy::util::bit_op::{change_bit_to, clear_bit, set_bit, toggle_bit};
use rustboy::util::memory_op::{
    pop_u16_stack, push_u16_stack, read_memory, read_memory_following_u16, read_memory_following_u8, write_memory,
};
use rustboy::{Emulator, Gameboy};

fn game_with(program: &[u8], cartridge_type: u8, rom_size: u8, ram_size: u8, len: usize) -> Vec<u8> {
    let mut game = vec![0u8; len];
    game[0x147] = cartridge_type;
    game[0x148] = rom_size;
    game[0x149] = ram_size;
    for (i, byte) in program.iter().enumerate() {
        game[i] = *byte;
    }
    game
}

fn cpu_with(program: &[u8]) -> CPU {
    let cartridge = Cartridge::new(game_with(program, 0x01, 0x00, 0x00, 0x150));
    let mut cpu = CPU::new(InterruptController::new(), cartridge, None);
    cpu.registers.set_pc(0);
    cpu.registers.set_f(0);
    cpu
}

fn run(cpu: &mut CPU, steps: usize) {
    for _ in 0..steps {
        cpu.try_step().unwrap();
        cpu.cpu_wait_cycles = 0;
    }
}

#[test]
fn work_ram_reads_back_what_was_written() {
    let mut cpu = cpu_with(&[]);
    write_memory(&mut cpu, 0xC123, 0x5A);
    assert_eq!(read_memory(&cpu, 0xC123), 0x5A);
    assert_eq!(read_memory(&cpu, 0xC124), 0x00);
}

#[test]
fn echo_ram_write_shows_in_work_ram() {
    let mut cpu = cpu_with(&[]);
    write_memory(&mut cpu, 0xE010, 0x77);
    assert_eq!(read_memory(&cpu, 0xC010), 0x77);
    assert_eq!(read_memory(&cpu, 0xE010), 0x77);
}

#[test]
fn work_ram_write_does_not_show_in_echo_ram() {
    let mut cpu = cpu_with(&[]);
    write_memory(&mut cpu, 0xC010, 0x66);
    assert_eq!(read_memory(&cpu, 0xE010), 0x00);
}

#[test]
fn unusable_area_reads_ff_and_takes_writes() {
    let mut cpu = cpu_with(&[]);
    assert_eq!(cpu.read(0xFEA0), Ok(0xFF));
    assert_eq!(cpu.write(0xFEFF, 0x12), Ok(()));
    assert_eq!(cpu.read(0xFEFF), Ok(0xFF));
}

#[test]
fn cartridge_ram_absent_fails_reads() {
    let cpu = cpu_with(&[]);
    assert_eq!(cpu.read(0xA000), Err(()));
    assert_eq!(cpu.read_byte(0xA000), None);
}

#[test]
fn boot_rom_is_read_until_unmapped() {
    let cartridge = Cartridge::new(game_with(&[0x11, 0x22], 0x01, 0x00, 0x00, 0x150));
    let mut cpu = CPU::new(InterruptController::new(), cartridge, Some(vec![0xAA, 0xBB]));
    assert_eq!(cpu.registers.pc(), 0);
    assert_eq!(cpu.registers.sp(), 0);
    assert_eq!(read_memory(&cpu, 0x0000), 0xAA);
    assert_eq!(read_memory(&cpu, 0x0001), 0xBB);
    assert_eq!(read_memory(&cpu, 0x0002), 0x00);
    write_memory(&mut cpu, 0xFF50, 0x01);
    assert_eq!(read_memory(&cpu, 0x0000), 0x11);
    assert_eq!(read_memory(&cpu, 0x0001), 0x22);
}

#[test]
fn boot_state_without_boot_rom() {
    let cartridge = Cartridge::new(game_with(&[], 0x01, 0x00, 0x00, 0x150));
    let cpu = CPU::new(InterruptController::new(), cartridge, None);
    assert_eq!(cpu.registers.pc(), 0x0100);
    assert_eq!(cpu.registers.sp(), 0xFFFE);
    assert_eq!(cpu.registers.af(), 0x01B0);
    assert_eq!(read_memory(&cpu, 0xFF10), 0x80);
    assert_eq!(read_memory(&cpu, 0xFF26), 0xF1);
    assert_eq!(read_memory(&cpu, 0xFF40), 0x91);
    assert_eq!(read_memory(&cpu, 0xFF47), 0xFC);
    assert_eq!(read_memory(&cpu, 0xFFFF), 0x00);
}

#[test]
fn push_then_pop_restores_the_pair() {
    let mut cpu = cpu_with(&[
        0b00_000_001, 0x34, 0x12, // LD BC, 0x1234
        0b00_110_001, 0xFE, 0xFF, // LD SP, 0xFFFE
        0b11_000_101,             // PUSH BC
        0b11_010_001,             // POP DE
    ]);
    run(&mut cpu, 4);
    assert_eq!(cpu.registers.de(), 0x1234);
    assert_eq!(cpu.registers.sp(), 0xFFFE);
    assert_eq!(read_memory(&cpu, 0xFFFD), 0x12);
    assert_eq!(read_memory(&cpu, 0xFFFC), 0x34);
}

#[test]
fn stack_helpers_round_trip() {
    let mut cpu = cpu_with(&[]);
    push_u16_stack(&mut cpu, 0xBEEF, 0xD000);
    assert_eq!(read_memory(&cpu, 0xCFFF), 0xBE);
    assert_eq!(read_memory(&cpu, 0xCFFE), 0xEF);
    assert_eq!(pop_u16_stack(&mut cpu, 0xCFFE), 0xBEEF);
    assert_eq!(read_memory_following_u16(&cpu, 0xCFFD), 0xBEEF);
    assert_eq!(read_memory_following_u8(&cpu, 0xCFFD), 0xEF);
    assert_eq!(read_memory_following_u8(&cpu, 0xCFFE), 0xBE);
}

#[test]
fn unsupported_opcode_stops_the_step() {
    let mut cpu = cpu_with(&[0xD3]);
    assert_eq!(cpu.try_step(), Err(()));
    let mut cpu = cpu_with(&[]);
    assert_eq!(try_execute(0xFD, 0, &mut cpu), None);
    assert_eq!(try_execute(0x10, 0, &mut cpu), None);
}

#[test]
fn read_outside_the_map_stops_the_step() {
    let mut cpu = cpu_with(&[0b00_100_001, 0x00, 0xA0, 0b01_111_110]); // LD HL, 0xA000; LD A, (HL)
    cpu.try_step().unwrap();
    cpu.cpu_wait_cycles = 0;
    assert_eq!(cpu.try_step(), Err(()));
}

#[test]
fn stack_below_zero_stops_push() {
    let mut cpu = cpu_with(&[0b00_110_001, 0x01, 0x00, 0b11_000_101]); // LD SP, 1; PUSH BC
    cpu.try_step().unwrap();
    cpu.cpu_wait_cycles = 0;
    assert_eq!(cpu.try_step(), Err(()));
}

#[test]
fn execute_returns_cycles() {
    let mut cpu = cpu_with(&[0x00, 0b00_000_110, 0x05]);
    assert_eq!(execute(0x00, 0, &mut cpu), 4);
    assert_eq!(execute(0b00_000_110, 1, &mut cpu), 8);
    assert_eq!(cpu.registers.b(), 0x05);
    assert_eq!(cpu.registers.pc(), 3);
}

#[test]
fn wait_cycles_count_down_between_instructions() {
    let mut cpu = cpu_with(&[0x00, 0x00]);
    cpu.step();
    assert_eq!(cpu.cpu_wait_cycles, 3);
    assert_eq!(cpu.registers.pc(), 1);
    cpu.step();
    cpu.step();
    cpu.step();
    assert_eq!(cpu.cpu_wait_cycles, 0);
    assert_eq!(cpu.registers.pc(), 1);
    cpu.step();
    assert_eq!(cpu.registers.pc(), 2);
}

#[test]
fn compare_keeps_a_and_sets_flags() {
    let mut cpu = cpu_with(&[0b00_111_110, 0x10, 0b11_111_110, 0x20]); // LD A, 0x10; CP 0x20
    run(&mut cpu, 2);
    assert_eq!(cpu.registers.a(), 0x10);
    assert_eq!(cpu.registers.flag_cy(), 1);
    assert_eq!(cpu.registers.flag_z(), 0);
    assert_eq!(cpu.registers.flag_n(), 1);
}

#[test]
fn increment_keeps_the_carry() {
    let mut cpu = cpu_with(&[0b00_110_111, 0b00_000_110, 0xFF, 0b00_000_100]); // SCF; LD B, 0xFF; INC B
    run(&mut cpu, 3);
    assert_eq!(cpu.registers.b(), 0x00);
    assert_eq!(cpu.registers.flag_z(), 1);
    assert_eq!(cpu.registers.flag_cy(), 1);
    assert_eq!(cpu.registers.flag_h(), 1);
}

#[test]
fn decimal_adjust_after_addition() {
    let mut cpu = cpu_with(&[0b00_111_110, 0x45, 0b11_000_110, 0x38, 0b00_100_111]); // LD A, 0x45; ADD A, 0x38; DAA
    run(&mut cpu, 3);
    assert_eq!(cpu.registers.a(), 0x83);
    assert_eq!(cpu.registers.flag_cy(), 0);
}

#[test]
fn relative_jump_backwards() {
    let mut cpu = cpu_with(&[0x00, 0x00, 0b00_011_000, 0xFC]); // NOP; NOP; JR -4
    run(&mut cpu, 3);
    assert_eq!(cpu.registers.pc(), 0);
}

#[test]
fn load_hl_with_signed_offset() {
    let mut cpu = cpu_with(&[0b00_110_001, 0x0F, 0xC0, 0b11_111_000, 0x01]); // LD SP, 0xC00F; LDHL SP, 1
    run(&mut cpu, 2);
    assert_eq!(cpu.registers.hl(), 0xC010);
    assert_eq!(cpu.registers.flag_h(), 1);
    assert_eq!(cpu.registers.flag_cy(), 0);
    assert_eq!(cpu.registers.flag_z(), 0);
}

#[test]
fn mbc1_bank_register_never_selects_zero() {
    let mut game = game_with(&[], 0x01, 0x01, 0x00, 0x10000);
    game[0x4000] = 0x01;
    game[0x8000] = 0x02;
    game[0xC000] = 0x03;
    let mut cartridge = Cartridge::new(game);
    assert_eq!(cartridge.read(0x4000), Ok(0x01));
    cartridge.write(0x2000, 0x00).unwrap();
    assert_eq!(cartridge.read(0x4000), Ok(0x01));
    cartridge.write(0x2000, 0x02).unwrap();
    assert_eq!(cartridge.read(0x4000), Ok(0x02));
    cartridge.write(0x2000, 0x23).unwrap();
    assert_eq!(cartridge.read(0x4000), Ok(0x03));
}

#[test]
fn mbc1_ram_reads_back_when_enabled() {
    let game = game_with(&[], 0x03, 0x00, 0x02, 0x8000);
    let mut cartridge = Cartridge::new(game);
    cartridge.write(0x0000, 0x0A).unwrap();
    cartridge.write(0x6000, 0x01).unwrap();
    cartridge.write(0xA123, 0x99).unwrap();
    assert_eq!(cartridge.read(0xA123), Ok(0x99));
    cartridge.write(0x0000, 0x00).unwrap();
    assert_eq!(cartridge.read(0xA123), Err(()));
}

#[test]
fn plain_cartridge_ignores_writes() {
    let mut cartridge = Cartridge::new(game_with(&[0x42], 0x00, 0x00, 0x00, 0x8000));
    assert_eq!(cartridge.write(0x0000, 0x99), Ok(()));
    assert_eq!(cartridge.read(0x0000), Ok(0x42));
}

#[test]
fn cartridge_support_is_checked() {
    assert!(Cartridge::supported(&game_with(&[], 0x00, 0x00, 0x00, 0x8000)));
    assert!(!Cartridge::supported(&game_with(&[], 0x00, 0x00, 0x00, 0x7FFF)));
    assert!(!Cartridge::supported(&game_with(&[], 0x04, 0x00, 0x00, 0x8000)));
    assert!(!Cartridge::supported(&game_with(&[], 0x01, 0x09, 0x00, 0x8000)));
    assert!(!Cartridge::supported(&game_with(&[], 0x01, 0x07, 0x00, 0x8000)));
    assert!(!Cartridge::supported(&vec![0u8; 0x100]));
    assert!(Cartridge::supported(&game_with(&[], 0x01, 0x00, 0x00, 0x150)));
}

#[test]
fn cartridge_title_is_read_from_the_header() {
    let mut game = game_with(&[], 0x00, 0x00, 0x00, 0x8000);
    game[0x134] = b'T';
    game[0x135] = b'E';
    game[0x136] = b'T';
    game[0x137] = b'R';
    game[0x138] = b'I';
    game[0x139] = b'S';
    let cartridge = Cartridge::new(game);
    assert_eq!(cartridge.title(), "TETRIS");
}

#[test]
fn read_write_memory_reads_back_and_read_only_refuses() {
    let mut ram = Memory::new_read_write(&[1, 2], 0x100, 0x10F);
    assert_eq!(ram.read(0x101), Ok(2));
    assert_eq!(ram.read(0x102), Ok(0));
    assert_eq!(ram.write(0x105, 9), Ok(()));
    assert_eq!(ram.read(0x105), Ok(9));
    let mut rom = Memory::new_read_only(&[7], 0x0, 0xF);
    assert_eq!(rom.write(0x0, 1), Err(()));
    assert_eq!(rom.read(0x0), Ok(7));
    assert!(rom.is_in_range(0xF));
    assert!(!rom.is_in_range(0x10));
    let mut io = AccessMemory::new_write_only(&[5], 0x20, 0x2F);
    assert_eq!(io.read(0x20), Err(()));
    assert_eq!(io.write(0x21, 3), Ok(()));
    assert_eq!(io.read(0x21), Err(()));
}

#[test]
fn bit_operations() {
    assert_eq!(set_bit(0b0000_0001, 3), 0b0000_1001);
    assert_eq!(clear_bit(0b1111_1111, 7), 0b0111_1111);
    assert_eq!(toggle_bit(0b0000_0100, 2), 0b0000_0000);
    assert_eq!(change_bit_to(0b0000_0000, 5, 1), 0b0010_0000);
    assert_eq!(change_bit_to(0b0010_0000, 5, 0), 0b0000_0000);
}

#[test]
fn rom_pads_to_two_banks_and_slices_banks() {
    let rom = ROM::new(vec![1, 2, 3]);
    assert_eq!(rom.data(0), 1);
    assert_eq!(rom.data(3), 0);
    assert_eq!(rom.bank(0).len(), 0x4000);
    assert_eq!(rom.bank(1).len(), 1);
    let banked = BankedRom::new(vec![5; 0x9000]);
    assert_eq!(banked.bank(1).len(), 0x4000);
    assert_eq!(banked.bank(2).len(), 0x1000);
}

#[test]
fn banked_rom_bank_mut_writes_through() {
    let mut banked = BankedRom::new(vec![0; 0x8000]);
    {
        let bank = banked.bank_mut(0);
        bank[3] = 0x44;
    }
    assert_eq!(banked.bank(0)[3], 0x44);
}

#[test]
fn first_model_mbc1_switches_with_ram_enable_in_mode_zero() {
    let mut mbc = MBC1::new(true, RomSize::KB128, RamSize::KB8);
    assert_eq!(mbc.read(0x0000), Ok(0));
    assert_eq!(mbc.read(0x4000), Ok(0));
    assert_eq!(mbc.write(0x2000, 0x05), Ok(()));
    assert_eq!(mbc.read(0x4000), Ok(0));
    assert_eq!(mbc.read(0xA000), Err(()));
    assert_eq!(mbc.write(0x0000, 0x0A), Ok(()));
    assert_eq!(mbc.write(0x6000, 0x01), Ok(()));
    assert_eq!(mbc.read(0xA000), Ok(0));
}

#[test]
fn first_model_header_types() {
    let header = CartridgeHeader {
        title: String::new(),
        manufacturer: String::new(),
        licensee_code: 0,
        old_licensee_code: 0,
        cartridge_type: CardridgeType::MBC1 { ram: false, battery: false },
        rom_size: RomSize::KB32,
        ram_size: RamSize::NoRam,
        destination: String::new(),
        version: 0,
        checksum: [0; 24],
        global_checksum: 0,
    };
    assert_eq!(header.rom_size, RomSize::KB32);
}

#[test]
fn memory_map_reads_back_and_sends_serial_bytes() {
    let mut map = MemoryMap::new(ROM::new(vec![0x31; 0x8000]), false, Vec::new());
    assert_eq!(map.read(0x0000), 0x31);
    assert_eq!(map.read(0xFF40), 0x91);
    assert_eq!(map.write(0xC000, 0x12), None);
    assert_eq!(map.read(0xC000), 0x12);
    assert_eq!(map.write(0xD005, 0x34), None);
    assert_eq!(map.read(0xD005), 0x34);
    assert_eq!(map.write(0xFF01, b'A'), None);
    assert_eq!(map.write(0xFF02, 0x81), Some(b'A'));
    assert_eq!(map.write(0xFF02, 0x80), None);
    assert_eq!(map.following_u8(0xC000), 0x00);
    map.push_u16_stack(0xABCD, 0xFFFE);
    assert_eq!(map.pop_u16_stack(0xFFFC), 0xABCD);
}

#[test]
fn memory_map_pop_after_push_across_areas() {
    let mut map = MemoryMap::new(ROM::new(vec![0x31; 0x8000]), false, Vec::new());
    map.push_u16_stack(0x1234, 0xC001);
    assert_eq!(map.read(0xC000), 0x12);
    assert_eq!(map.read(0xBFFF), 0x34);
    assert_eq!(map.pop_u16_stack(0xBFFF), 0x1234);
    map.push_u16_stack(0xBEEF, 0xE000);
    assert_eq!(map.pop_u16_stack(0xDFFE), 0xBEEF);
    assert_eq!(map.pop_u16_stack(0xDFFE), 0xBEEF);
}

#[test]
fn memory_map_boot_area_during_boot_sequence() {
    let mut map = MemoryMap::new(ROM::new(vec![0x31; 0x8000]), true, vec![0xEE; 0x100]);
    assert_eq!(map.read(0x0010), 0xEE);
    assert_eq!(map.read(0x0100), 0x31);
    map.write(0xFF50, 1);
    assert_eq!(map.read(0x0010), 0x31);
    assert_eq!(map.read(0xFF40), 0x00);
}

#[test]
fn tilemap_shows_tile_data() {
    let mut cpu = cpu_with(&[]);
    write_memory(&mut cpu, 0xFF40, 0x00);
    write_memory(&mut cpu, 0x8000, 0b1000_0001);
    write_memory(&mut cpu, 0x8001, 0b1100_0000);
    let picture = VRAMFetcher {}.render_background_tilemap(&cpu);
    assert_eq!(picture.size(), (128, 128));
    assert_eq!(picture.pixel(0, 0), (0, 0, 0, 255));
    assert_eq!(picture.pixel(1, 0), (90, 90, 90, 255));
    assert_eq!(picture.pixel(2, 0), (255, 255, 255, 255));
    assert_eq!(picture.pixel(7, 0), (180, 180, 180, 255));
    assert_eq!(picture.pixel(0, 1), (255, 255, 255, 255));
}

#[test]
fn gameboy_without_cartridge() {
    let mut gameboy = Gameboy::new(None);
    assert_eq!(gameboy.game_title(), "");
    assert_eq!(gameboy.step(10), Ok(()));
    let screen = gameboy.screen();
    assert_eq!(screen.size(), (HOR_PIXELS, VER_PIXELS));
    assert_eq!(screen.pixel(5, 5), (255, 255, 255, 255));
    assert_eq!(gameboy.render_background_tilemap(VRAMFetcher {}).size(), (0, 0));
}

#[test]
fn gameboy_runs_a_loaded_cartridge() {
    let mut game = game_with(&[], 0x00, 0x00, 0x00, 0x8000);
    game[0x134] = b'A';
    game[0x100] = 0b00_111_110; // LD A, 0x42
    game[0x101] = 0x42;
    game[0x102] = 0b00_011_000; // JR -2
    game[0x103] = 0xFE;
    let mut gameboy = Gameboy::new(None);
    gameboy.load_cartridge(Cartridge::new(game));
    assert_eq!(gameboy.game_title(), "A");
    assert_eq!(gameboy.step(100), Ok(()));
    assert_eq!(gameboy.render_step(), Ok(()));
    assert_eq!(gameboy.screen().size(), (HOR_PIXELS, VER_PIXELS));
    assert_eq!(gameboy.render_all_background_tiles(VRAMFetcher {}).size(), (64, 384));
    assert_eq!(gameboy.render_background_tilemap(VRAMFetcher {}).size(), (128, 128));
}

#[test]
fn gameboy_reports_a_stopped_program() {
    let mut game = game_with(&[], 0x00, 0x00, 0x00, 0x8000);
    game[0x100] = 0xDD;
    let mut gameboy = Gameboy::new(None);
    gameboy.load_cartridge(Cartridge::new(game));
    assert_eq!(gameboy.step(5), Err(()));
}

#[test]
fn line_register_follows_the_ticks() {
    let mut cpu = cpu_with(&[0b00_011_000, 0xFE]); // JR -2
    for _ in 0..(228 * 3 + 41) {
        cpu.try_step().unwrap();
    }
    assert_eq!(read_memory(&cpu, 0xFF44), 3);
}
