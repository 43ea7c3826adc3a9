//! Game cartridges in the iNES format.
use vstd::prelude::*;

verus! {

/// How the two nametables of the console are laid out in video memory.
#[derive(Debug, PartialEq, Eq, Structural, Copy, Clone)]
pub enum MirroringType {
    Horizontal,
    Vertical,
}

/// The routine a mapper reads program memory with.
#[derive(Debug, PartialEq, Eq, Structural, Copy, Clone)]
pub enum MapperRead {
    /// One 16 KiB bank, seen twice in 0x8000..=0xFFFF.
    Nrom16kb,
    /// One 32 KiB bank filling 0x8000..=0xFFFF.
    Nrom32kb,
}

/// The routine a mapper handles writes to cartridge space with.
#[derive(Debug, PartialEq, Eq, Structural, Copy, Clone)]
pub enum MapperWrite {
    /// NROM has no registers: writes are ignored.
    Nrom,
}

pub struct Cartridge {
    pub prg_rom: Vec<u8>,
    pub chr_rom: Vec<u8>,
    pub mapper: u8,
    pub mapper_reader: MapperRead,
    pub mapper_writer: MapperWrite,
    pub mirroring: MirroringType,
}

/// The length of the iNES header.
pub open spec fn header_len() -> nat {
    16
}

/// The (program, character) ROM sizes that the iNES header announces: 16 KiB and 8 KiB units.
pub open spec fn header_sizes(rom: Seq<u8>) -> (nat, nat) {
    (rom[4] as nat * 16384, rom[5] as nat * 8192)
}

/// The mapper number: high nibble from byte 7, low nibble from the high nibble of byte 6.
pub open spec fn mapper_number(rom: Seq<u8>) -> u8 {
    ((rom[7] / 16) * 16 + rom[6] / 16) as u8
}

/// The nametable layout that bit 0 of byte 6 selects.
pub open spec fn header_mirroring(rom: Seq<u8>) -> MirroringType {
    if rom[6] % 2 == 0 {
        MirroringType::Horizontal
    } else {
        MirroringType::Vertical
    }
}

/// Whether the header's program and character ROMs fit in the image after the header.
pub open spec fn rom_fits(rom: Seq<u8>) -> bool {
    rom.len() >= 6 && header_len() + header_sizes(rom).0 + header_sizes(rom).1 <= rom.len()
}

/// The program ROM of an image.
pub open spec fn prg_of(rom: Seq<u8>) -> Seq<u8> {
    rom.subrange(16, 16 + header_sizes(rom).0 as int)
}

/// The character ROM of an image.
pub open spec fn chr_of(rom: Seq<u8>) -> Seq<u8> {
    rom.subrange(16 + header_sizes(rom).0 as int, 16 + header_sizes(rom).0 as int + header_sizes(rom).1 as int)
}

/// The read routine that `choose_mapper` picks for NROM: the 16 KiB one exactly for a
/// 16 KiB program ROM.
pub open spec fn nrom_reader(prg_len: nat) -> MapperRead {
    if prg_len == 16384 {
        MapperRead::Nrom16kb
    } else {
        MapperRead::Nrom32kb
    }
}

impl Cartridge {
    /// The offset into program ROM that a read at `address` uses.
    pub open spec fn prg_offset(&self, address: u16) -> int {
        match self.mapper_reader {
            MapperRead::Nrom16kb => (address - 0x8000) % 16384,
            MapperRead::Nrom32kb => address - 0x8000,
        }
    }

    /// Whether a read at `address` is defined: the address is in 0x8000..=0xFFFF and its
    /// offset falls inside program ROM.
    pub open spec fn can_read(&self, address: u16) -> bool {
        address >= 0x8000 && self.prg_offset(address) < self.prg_rom@.len()
    }

    /// The byte a read at `address` returns.
    pub open spec fn value_at(&self, address: u16) -> u8 {
        self.prg_rom@[self.prg_offset(address)]
    }

    /// The read and write routines for a mapper; only mapper 0 (NROM) is supported.
    pub fn choose_mapper(mapper_number: u8, prg_len: usize) -> (r: (MapperRead, MapperWrite))
        requires
            mapper_number == 0,
        ensures
            r == (nrom_reader(prg_len as nat), MapperWrite::Nrom),
    {
        match mapper_number {
            0 => {
                if prg_len == 16384 {
                    (MapperRead::Nrom16kb, MapperWrite::Nrom)
                } else {
                    (MapperRead::Nrom32kb, MapperWrite::Nrom)
                }
            },
            _ => (MapperRead::Nrom32kb, MapperWrite::Nrom),
        }
    }

    fn read_nrom_16kb(&mut self, addr: u16) -> (r: u8)
        requires
            addr >= 0x8000,
            (addr - 0x8000) % 16384 < old(self).prg_rom@.len(),
        ensures
            r == old(self).prg_rom@[(addr - 0x8000) % 16384],
            *final(self) == *old(self),
    {
        let index = ((addr - 0x8000) % 16384) as usize;
        self.prg_rom[index]
    }

    fn read_nrom_32kb(&mut self, addr: u16) -> (r: u8)
        requires
            addr >= 0x8000,
            addr - 0x8000 < old(self).prg_rom@.len(),
        ensures
            r == old(self).prg_rom@[addr - 0x8000],
            *final(self) == *old(self),
    {
        let index = (addr - 0x8000) as usize;
        self.prg_rom[index]
    }

    fn write_nrom(&mut self, _address: u16, _data: u8)
        ensures
            *final(self) == *old(self),
    {
    }

    /// A read from cartridge space through the mapper's read routine.
    pub fn read(&mut self, address: u16) -> (r: u8)
        requires
            old(self).can_read(address),
        ensures
            r == old(self).value_at(address),
            *final(self) == *old(self),
    {
        match self.mapper_reader {
            MapperRead::Nrom16kb => self.read_nrom_16kb(address),
            MapperRead::Nrom32kb => self.read_nrom_32kb(address),
        }
    }

    /// A write to cartridge space through the mapper's write routine.
    pub fn write(&mut self, address: u16, data: u8)
        ensures
            *final(self) == *old(self),
    {
        match self.mapper_writer {
            MapperWrite::Nrom => self.write_nrom(address, data),
        }
    }

    /// Builds a cartridge from an iNES image.
    pub fn parse_rom_data(buffer: &[u8]) -> (c: Cartridge)
        requires
            rom_fits(buffer@),
            mapper_number(buffer@) == 0,
        ensures
            c.prg_rom@ == prg_of(buffer@),
            c.chr_rom@ == chr_of(buffer@),
            c.mapper == 0,
            c.mapper_reader == nrom_reader(header_sizes(buffer@).0),
            c.mapper_writer == MapperWrite::Nrom,
            c.mirroring == header_mirroring(buffer@),
    {
        let (prg_size, chr_size) = Self::parse_header(buffer);
        proof {
            lemma_nibbles(buffer@[6], buffer@[7]);
        }
        let lower_mapper = buffer[6] >> 4;
        let upper_mapper = buffer[7] & 0xF0;
        let mapper_number = upper_mapper | lower_mapper;
        let (reader, writer) = Self::choose_mapper(mapper_number, prg_size);
        let mirroring = if buffer[6] & 0x1 == 0 {
            MirroringType::Horizontal
        } else {
            MirroringType::Vertical
        };
        Cartridge {
            prg_rom: Self::parse_prg_rom(buffer, prg_size),
            chr_rom: Self::parse_chr_rom(buffer, prg_size, chr_size),
            mapper: mapper_number,
            mirroring,
            mapper_reader: reader,
            mapper_writer: writer,
        }
    }

    pub fn parse_header(rom_data: &[u8]) -> (sizes: (usize, usize))
        requires
            rom_data@.len() >= 6,
        ensures
            sizes.0 == header_sizes(rom_data@).0,
            sizes.1 == header_sizes(rom_data@).1,
    {
        let prg_size = rom_data[4] as usize * 16 * 1024;
        let chr_size = rom_data[5] as usize * 8 * 1024;
        (prg_size, chr_size)
    }

    pub fn parse_prg_rom(rom_data: &[u8], prg_size: usize) -> (prg: Vec<u8>)
        requires
            16 + prg_size <= rom_data@.len(),
        ensures
            prg@ == rom_data@.subrange(16, 16 + prg_size),
    {
        let available = rom_data.len();
        assert(16 + prg_size <= available);
        copy_range(rom_data, 16, 16 + prg_size)
    }

    pub fn parse_chr_rom(rom_data: &[u8], prg_size: usize, chr_size: usize) -> (chr: Vec<u8>)
        requires
            16 + prg_size + chr_size <= rom_data@.len(),
        ensures
            chr@ == rom_data@.subrange(16 + prg_size, 16 + prg_size + chr_size),
    {
        let available = rom_data.len();
        assert(16 + prg_size + chr_size <= available);
        copy_range(rom_data, 16 + prg_size, 16 + prg_size + chr_size)
    }
}

/// The bytes `data[start..end]` as a vector.
fn copy_range(data: &[u8], start: usize, end: usize) -> (out: Vec<u8>)
    requires
        start <= end <= data@.len(),
    ensures
        out@ == data@.subrange(start as int, end as int),
{
    let mut out: Vec<u8> = Vec::with_capacity(end - start);
    let mut i: usize = start;
    while i < end
        invariant
            start <= i <= end <= data@.len(),
            out@ == data@.subrange(start as int, i as int),
        decreases end - i,
    {
        out.push(data[i]);
        i += 1;
    }
    out
}

/// With a 16 KiB program ROM the bank is seen twice: an address in 0x8000..=0xBFFF and the
/// same address 16 KiB higher read the same byte.
pub proof fn lemma_nrom_128_mirror(c: Cartridge, address: u16)
    requires
        c.mapper_reader == MapperRead::Nrom16kb,
        0x8000 <= address < 0xC000,
    ensures
        c.can_read(address) == c.can_read((address + 0x4000) as u16),
        c.value_at(address) == c.value_at((address + 0x4000) as u16),
{
}

/// The program ROM followed by the character ROM is the image after its header.
pub proof fn lemma_rom_layout(rom: Seq<u8>)
    requires
        rom_fits(rom),
    ensures
        prg_of(rom) + chr_of(rom) =~= rom.subrange(16, 16 + header_sizes(rom).0 as int + header_sizes(rom).1 as int),
{
}

proof fn lemma_nibbles(b6: u8, b7: u8)
    by (bit_vector)
    ensures
        (b7 & 0xF0) | (b6 >> 4) == (b7 / 16) * 16 + b6 / 16,
        (b6 & 0x1 == 0) == (b6 % 2 == 0),
{
}

} // verus!
