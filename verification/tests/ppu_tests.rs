use nes_emu::cartridge::{Cartridge, MirroringType};
use nes_emu::ppu::Ppu;

fn cartridge(mirroring: MirroringType) -> Cartridge {
    let flags6 = if mirroring == MirroringType::Vertical { 1 } else { 0 };
    let mut rom = vec![0x4E, 0x45, 0x53, 0x1A, 1, 1, flags6, 0, 0, 0, 0, 0, 0, 0, 0, 0];
    rom.extend(std::iter::repeat(0u8).take(16384));
    rom.extend((0..8192).map(|i| (i % 256) as u8));
    Cartridge::parse_rom_data(&rom)
}

fn set_address(ppu: &mut Ppu, address: u16) {
    ppu.write_register(6, (address >> 8) as u8);
    ppu.write_register(6, (address & 0xFF) as u8);
}

fn read_at(ppu: &mut Ppu, address: u16) -> u8 {
    set_address(ppu, address);
    ppu.read_register(7);
    ppu.read_register(7)
}

#[test]
fn ppudata_reads_back_a_write() {
    let mut ppu = Ppu::new(&cartridge(MirroringType::Vertical));
    set_address(&mut ppu, 0x2105);
    ppu.write_register(7, 0x42);
    set_address(&mut ppu, 0x2105);
    let stale = ppu.read_register(7);
    assert_eq!(stale, 0);
    assert_eq!(ppu.read_register(7), 0x42);
}

#[test]
fn ppudata_steps_by_32_when_asked() {
    let mut ppu = Ppu::new(&cartridge(MirroringType::Vertical));
    ppu.write_register(0, 0x04);
    set_address(&mut ppu, 0x2000);
    ppu.write_register(7, 1);
    ppu.write_register(7, 2);
    ppu.write_register(0, 0x00);
    assert_eq!(read_at(&mut ppu, 0x2000), 1);
    assert_eq!(read_at(&mut ppu, 0x2020), 2);
}

#[test]
fn pattern_memory_reads_the_cartridge() {
    let mut ppu = Ppu::new(&cartridge(MirroringType::Vertical));
    assert_eq!(read_at(&mut ppu, 0x0123), 0x23);
    set_address(&mut ppu, 0x0123);
    ppu.write_register(7, 0xEE);
    assert_eq!(read_at(&mut ppu, 0x0123), 0xEE);
}

#[test]
fn palette_reads_are_not_buffered_and_mirror_the_backdrop() {
    let mut ppu = Ppu::new(&cartridge(MirroringType::Vertical));
    set_address(&mut ppu, 0x3F10);
    ppu.write_register(7, 0x2C);
    set_address(&mut ppu, 0x3F00);
    assert_eq!(ppu.read_register(7), 0x2C);
    set_address(&mut ppu, 0x3F04);
    ppu.write_register(7, 0xFF);
    set_address(&mut ppu, 0x3F14);
    assert_eq!(ppu.read_register(7), 0x3F);
}

#[test]
fn vertical_and_horizontal_mirroring() {
    let mut ppu = Ppu::new(&cartridge(MirroringType::Vertical));
    set_address(&mut ppu, 0x2010);
    ppu.write_register(7, 0x77);
    assert_eq!(read_at(&mut ppu, 0x2810), 0x77);
    assert_eq!(read_at(&mut ppu, 0x2410), 0x00);
    let mut ppu = Ppu::new(&cartridge(MirroringType::Horizontal));
    set_address(&mut ppu, 0x2010);
    ppu.write_register(7, 0x66);
    assert_eq!(read_at(&mut ppu, 0x2410), 0x66);
    assert_eq!(read_at(&mut ppu, 0x2810), 0x00);
    assert_eq!(read_at(&mut ppu, 0x3010), 0x66);
}

#[test]
fn oam_data_write_and_read() {
    let mut ppu = Ppu::new(&cartridge(MirroringType::Vertical));
    ppu.write_register(3, 0x10);
    ppu.write_register(4, 0xAA);
    ppu.write_register(4, 0xBB);
    assert_eq!(ppu.oam[0x10], 0xAA);
    assert_eq!(ppu.oam[0x11], 0xBB);
    ppu.write_register(3, 0x11);
    assert_eq!(ppu.read_register(4), 0xBB);
}

#[test]
fn unreadable_registers_return_the_latch() {
    let mut ppu = Ppu::new(&cartridge(MirroringType::Vertical));
    ppu.write_register(1, 0x1E);
    assert_eq!(ppu.read_register(0), 0x1E);
    assert_eq!(ppu.read_register(5), 0x1E);
}

#[test]
fn vblank_starts_at_line_241_and_raises_nmi() {
    let mut ppu = Ppu::new(&cartridge(MirroringType::Vertical));
    ppu.write_register(0, 0x80);
    for _ in 0..(241 * 341) {
        ppu.step();
    }
    assert!(!ppu.nmi_interrupt);
    ppu.step();
    assert!(ppu.nmi_interrupt);
    let status = ppu.read_register(2);
    assert_eq!(status & 0x80, 0x80);
    let status = ppu.read_register(2);
    assert_eq!(status & 0x80, 0);
}

#[test]
fn enabling_nmi_during_vblank_raises_it_at_once() {
    let mut ppu = Ppu::new(&cartridge(MirroringType::Vertical));
    for _ in 0..(241 * 341 + 1) {
        ppu.step();
    }
    assert!(!ppu.nmi_interrupt);
    ppu.write_register(0, 0x80);
    assert!(ppu.nmi_interrupt);
}

#[test]
fn vblank_ends_on_the_pre_render_line() {
    let mut ppu = Ppu::new(&cartridge(MirroringType::Vertical));
    // From line 0 dot 0 to line -1 dot 1: 262 lines of 341 dots, plus one.
    for _ in 0..(262 * 341 + 1) {
        ppu.step();
    }
    assert_eq!(ppu.read_register(2) & 0x80, 0);
    // From line -1 dot 1 to line 241 dot 1.
    for _ in 0..(242 * 341) {
        ppu.step();
    }
    assert_eq!(ppu.read_register(2) & 0x80, 0x80);
}

#[test]
fn backdrop_fills_the_screen_while_rendering_is_off() {
    let mut ppu = Ppu::new(&cartridge(MirroringType::Vertical));
    set_address(&mut ppu, 0x3F00);
    ppu.write_register(7, 0x21);
    set_address(&mut ppu, 0x2000);
    for _ in 0..(2 * 341) {
        ppu.step();
    }
    assert_eq!(ppu.screen_buffer.len(), 256 * 240);
    assert_eq!(ppu.screen_buffer[0], 0x21);
    assert_eq!(ppu.screen_buffer[255], 0x21);
    assert_eq!(ppu.screen_buffer[256], 0x21);
    assert_eq!(ppu.screen_buffer[512], 0x00);
}

#[test]
fn background_tile_is_drawn_from_pattern_memory() {
    // Pattern memory byte i is i % 256, so tile 1's rows have non-zero bits.
    let mut ppu = Ppu::new(&cartridge(MirroringType::Vertical));
    set_address(&mut ppu, 0x3F00);
    for color in [0x0Fu8, 0x11, 0x22, 0x33] {
        ppu.write_register(7, color);
    }
    set_address(&mut ppu, 0x2000);
    for _ in 0..32 {
        ppu.write_register(7, 1);
    }
    set_address(&mut ppu, 0x0000);
    ppu.write_register(5, 0);
    ppu.write_register(5, 0);
    ppu.write_register(1, 0x0A);
    for _ in 0..(262 * 341 + 341 + 20) {
        ppu.step();
    }
    let line: Vec<u8> = ppu.screen_buffer[..256].to_vec();
    assert!(line.iter().all(|c| [0x0F, 0x11, 0x22, 0x33].contains(c)));
    assert!(line.iter().any(|&c| c != 0x0F));
}

#[test]
fn frame_lasts_263_lines_of_341_dots() {
    let mut ppu = Ppu::new(&cartridge(MirroringType::Vertical));
    ppu.write_register(1, 0x18);
    for _ in 0..(241 * 341 + 1) {
        ppu.step();
    }
    assert_eq!(ppu.read_register(2) & 0x80, 0x80);
    for _ in 0..(263 * 341 - 1) {
        ppu.step();
    }
    assert_eq!(ppu.read_register(2) & 0x80, 0);
    ppu.step();
    assert_eq!(ppu.read_register(2) & 0x80, 0x80);
}
