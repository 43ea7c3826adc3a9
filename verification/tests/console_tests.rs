use nes_emu::cartridge::Cartridge;
use nes_emu::console::{Console, Ram};
use nes_emu::cpu::Bus;
use nes_emu::joypad::Joypad;
use nes_emu::ppu::Ppu;

fn console() -> Console {
    let mut rom = vec![0x4E, 0x45, 0x53, 0x1A, 1, 1, 0, 0, 0, 0, 0, 0, 0, 0, 0, 0];
    rom.extend((0..16384).map(|i| (i % 256) as u8));
    rom.extend(std::iter::repeat(0u8).take(8192));
    let cartridge = Cartridge::parse_rom_data(&rom);
    let ppu = Ppu::new(&cartridge);
    Console { ram: Ram::new(), ppu, cartridge, joypad: Joypad::new() }
}

#[test]
fn ram_starts_zeroed() {
    let ram = Ram::new();
    assert_eq!(ram.ram.len(), 0x0800);
    assert!(ram.ram.iter().all(|&b| b == 0));
}

#[test]
fn ram_read_after_write_and_mirrors() {
    let mut c = console();
    c.write(0x0123, 0xAB);
    assert_eq!(c.read(0x0123), 0xAB);
    assert_eq!(c.read(0x0923), 0xAB);
    assert_eq!(c.read(0x1123), 0xAB);
    assert_eq!(c.read(0x1923), 0xAB);
    c.write(0x1FFF, 0x11);
    assert_eq!(c.read(0x07FF), 0x11);
}

#[test]
fn cartridge_space_reads_program_rom() {
    let mut c = console();
    assert_eq!(c.read(0x8005), 5);
    assert_eq!(c.read(0xC005), 5);
    c.write(0x8005, 0x77);
    assert_eq!(c.read(0x8005), 5);
}

#[test]
fn unmapped_addresses_read_zero() {
    let mut c = console();
    assert_eq!(c.read(0x4000), 0);
    assert_eq!(c.read(0x4017), 0);
    c.write(0x4000, 0x55);
    assert_eq!(c.read(0x4000), 0);
}

#[test]
fn controller_port_reaches_the_joypad() {
    let mut c = console();
    c.joypad.set_pressed_keys(0b0000_0010);
    c.write(0x4016, 1);
    c.write(0x4016, 0);
    assert_eq!(c.read(0x4016), 0);
    assert_eq!(c.read(0x4016), 1);
    assert_eq!(c.read(0x4016), 0);
}

#[test]
fn sprite_dma_copies_a_ram_page() {
    let mut c = console();
    for i in 0..256u16 {
        c.write(0x0300 + i, (i as u8).wrapping_mul(3));
    }
    c.write(0x4014, 0x03);
    for i in 0..256usize {
        assert_eq!(c.ppu.oam[i], (i as u8).wrapping_mul(3));
    }
    // OAMADDR = 5, then OAMDATA reads the copied byte.
    c.write(0x2003, 5);
    assert_eq!(c.read(0x2004), 15);
}

#[test]
fn ppu_registers_repeat_every_eight_bytes() {
    let mut c = console();
    c.write(0x2006, 0x21);
    c.write(0x3FFE, 0x08);
    c.write(0x2007, 0x5A);
    c.write(0x200E, 0x21);
    c.write(0x2006, 0x08);
    c.read(0x2007);
    assert_eq!(c.read(0x3FFF), 0x5A);
}
