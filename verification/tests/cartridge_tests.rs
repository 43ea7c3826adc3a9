use nes_emu::cartridge::{Cartridge, MapperRead, MapperWrite, MirroringType};

fn image(prg_banks: u8, chr_banks: u8, flags6: u8, flags7: u8) -> Vec<u8> {
    let mut rom = vec![0x4E, 0x45, 0x53, 0x1A, prg_banks, chr_banks, flags6, flags7, 0, 0, 0, 0, 0, 0, 0, 0];
    for i in 0..(prg_banks as usize * 16384) {
        rom.push((i % 251) as u8);
    }
    for i in 0..(chr_banks as usize * 8192) {
        rom.push((i % 13) as u8 + 100);
    }
    rom
}

#[test]
fn header_gives_rom_sizes() {
    let rom = image(2, 1, 0, 0);
    assert_eq!(Cartridge::parse_header(&rom), (32768, 8192));
    let rom = image(1, 0, 0, 0);
    assert_eq!(Cartridge::parse_header(&rom), (16384, 0));
}

#[test]
fn prg_and_chr_follow_the_header() {
    let rom = image(1, 1, 0, 0);
    let prg = Cartridge::parse_prg_rom(&rom, 16384);
    let chr = Cartridge::parse_chr_rom(&rom, 16384, 8192);
    assert_eq!(prg.len(), 16384);
    assert_eq!(chr.len(), 8192);
    assert_eq!(prg[..], rom[16..16 + 16384]);
    assert_eq!(chr[..], rom[16 + 16384..]);
    let mut joined = prg.clone();
    joined.extend_from_slice(&chr);
    assert_eq!(joined[..], rom[16..]);
}

#[test]
fn mapper_zero_picks_nrom_by_size() {
    assert_eq!(Cartridge::choose_mapper(0, 16384), (MapperRead::Nrom16kb, MapperWrite::Nrom));
    assert_eq!(Cartridge::choose_mapper(0, 32768), (MapperRead::Nrom32kb, MapperWrite::Nrom));
    assert_eq!(Cartridge::choose_mapper(0, 0), (MapperRead::Nrom32kb, MapperWrite::Nrom));
}

#[test]
fn parse_rom_data_reads_the_header_flags() {
    let cart = Cartridge::parse_rom_data(&image(1, 1, 0x01, 0x00));
    assert_eq!(cart.mirroring, MirroringType::Vertical);
    assert_eq!(cart.mapper, 0);
    assert_eq!(cart.mapper_reader, MapperRead::Nrom16kb);
    assert_eq!(cart.mapper_writer, MapperWrite::Nrom);
    let cart = Cartridge::parse_rom_data(&image(2, 0, 0x00, 0x00));
    assert_eq!(cart.mirroring, MirroringType::Horizontal);
    assert_eq!(cart.mapper_reader, MapperRead::Nrom32kb);
    assert_eq!(cart.prg_rom.len(), 32768);
    assert!(cart.chr_rom.is_empty());
}

#[test]
fn nrom_128_is_seen_twice() {
    let mut cart = Cartridge::parse_rom_data(&image(1, 1, 0, 0));
    for address in [0x8000u16, 0x8123, 0xBFFF] {
        let low = cart.read(address);
        let high = cart.read(address + 0x4000);
        assert_eq!(low, high);
        assert_eq!(low, ((address - 0x8000) as usize % 251) as u8);
    }
}

#[test]
fn nrom_256_fills_the_window() {
    let mut cart = Cartridge::parse_rom_data(&image(2, 1, 0, 0));
    assert_eq!(cart.read(0x8000), 0);
    assert_eq!(cart.read(0xC000), (16384 % 251) as u8);
    assert_eq!(cart.read(0xFFFF), (32767 % 251) as u8);
}

#[test]
fn nrom_ignores_writes() {
    let mut cart = Cartridge::parse_rom_data(&image(1, 1, 0, 0));
    let before = cart.read(0x8000);
    cart.write(0x8000, before.wrapping_add(1));
    assert_eq!(cart.read(0x8000), before);
}
