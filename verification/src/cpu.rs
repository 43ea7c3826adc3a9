use vstd::prelude::*;
use crate::bits::{lemma_byte_bits, lemma_or_fresh_bit, lemma_byte_from_bits, lemma_bits_of_byte, lemma_word_parts, lemma_split_word, lemma_page_start, lemma_byte_complement, lemma_byte_shifts, lemma_widened_shift, lemma_overflow_bits, lemma_signed_offset, lemma_status_masks, wrap8, wrap16};
use crate::timing::{opcode_cycles, OPCODES_CYCLES};
use crate::isa::{with_cpu, implied_effect, lemma_execute_implied, load_effect, store_effect, logic_effect, compare_effect, step_memory_effect, bit_effect, brk_effect, isb_effect, jmp_effect, shift_effect, pla_effect, plp_effect, rra_effect, rla_effect, sbc_effect, adc_effect, rti_effect, rts_effect, slo_effect, Logic, Shift, execute_opcode, reset_effect, nmi_effect, step, jsr_effect, pushed_status, interrupt_status, Run, run, execute, Instruction, branch_effect, set_nz, step_register, overflowed, Register, operand, absolute_indexed, indirect_indexed, indexed_indirect, indirect, fetch_byte, fetch_word, push_byte, push_word, pop_byte, pop_word, stack_address, page_crossed};

verus! {

/// The ways an instruction can name its operand.
#[derive(PartialEq, Eq, Structural, Clone, Copy, Debug)]
pub enum AddressingMode {
    Immediate,
    ZeroPage,
    ZeroPageX,
    ZeroPageY,
    Accumulator,
    Absolute,
    AbsoluteX,
    AbsoluteY,
    Indirect,
    IndirectX,
    IndirectY,
}

/// Anything the processor can read bytes from and write bytes to.
///
/// An implementor describes its behaviour through its view: which addresses can be read,
/// what a read returns and how a read or a write changes the view.
pub trait Bus: View + Sized {
    /// Whether a read at `address` is defined in this state.
    spec fn readable(state: Self::V, address: u16) -> bool;

    /// The byte a read at `address` returns in this state.
    spec fn peek(state: Self::V, address: u16) -> u8;

    /// The state after a read at `address` (reads may have side effects).
    spec fn after_read(state: Self::V, address: u16) -> Self::V;

    /// Whether writing `data` at `address` is defined in this state.
    spec fn writable(state: Self::V, address: u16, data: u8) -> bool;

    /// The state after writing `data` at `address`.
    spec fn after_write(state: Self::V, address: u16, data: u8) -> Self::V;

    fn read(&mut self, address: u16) -> (value: u8)
        requires
            Self::readable(old(self)@, address),
        ensures
            value == Self::peek(old(self)@, address),
            final(self)@ == Self::after_read(old(self)@, address),
    ;

    fn write(&mut self, address: u16, data: u8)
        requires
            Self::writable(old(self)@, address, data),
        ensures
            final(self)@ == Self::after_write(old(self)@, address, data),
    ;
}

/// The processor status register, one field per flag.
#[derive(Debug)]
pub struct ParsedBites {
    pub carry: bool,
    pub zero: bool,
    pub interrupt: bool,
    pub decimal: bool,
    pub break_command: bool,
    pub unused: bool,
    pub overflow: bool,
    pub negative: bool,
}

/// The status register packed into a byte: carry is bit 0, zero bit 1, interrupt bit 2,
/// decimal bit 3, break bit 4, unused bit 5, overflow bit 6 and negative bit 7.
pub open spec fn status_byte(p: ParsedBites) -> u8 {
    ((if p.carry { 1int } else { 0 }) + (if p.zero { 2int } else { 0 }) + (if p.interrupt { 4int } else { 0 })
        + (if p.decimal { 8int } else { 0 }) + (if p.break_command { 16int } else { 0 })
        + (if p.unused { 32int } else { 0 }) + (if p.overflow { 64int } else { 0 })
        + (if p.negative { 128int } else { 0 })) as u8
}

/// The flags that a status byte encodes (the inverse of `status_byte`).
pub open spec fn status_flags(b: u8) -> ParsedBites {
    ParsedBites {
        carry: b % 2 == 1,
        zero: (b / 2) % 2 == 1,
        interrupt: (b / 4) % 2 == 1,
        decimal: (b / 8) % 2 == 1,
        break_command: (b / 16) % 2 == 1,
        unused: (b / 32) % 2 == 1,
        overflow: (b / 64) % 2 == 1,
        negative: (b / 128) % 2 == 1,
    }
}

/// The status register at power-on: interrupts disabled and the unused bit set.
pub open spec fn power_on_flags() -> ParsedBites {
    ParsedBites {
        carry: false,
        zero: false,
        interrupt: true,
        decimal: false,
        break_command: false,
        unused: true,
        overflow: false,
        negative: false,
    }
}

impl ParsedBites {
    pub fn new() -> (r: Self)
        ensures
            r == power_on_flags(),
    {
        ParsedBites {
            carry: false,
            zero: false,
            interrupt: true,
            decimal: false,
            break_command: false,
            unused: true,
            overflow: false,
            negative: false,
        }
    }

    pub fn to_byte(&mut self) -> (r: u8)
        ensures
            r == status_byte(*old(self)),
            *final(self) == *old(self),
    {
        proof {
            lemma_or_fresh_bit(0);
        }
        let mut status_byte: u8 = 0;
        if self.carry {
            status_byte |= 0x01;
        }
        proof { lemma_or_fresh_bit(status_byte); }
        if self.zero {
            status_byte |= 0x02;
        }
        proof { lemma_or_fresh_bit(status_byte); }
        if self.interrupt {
            status_byte |= 0x04;
        }
        proof { lemma_or_fresh_bit(status_byte); }
        if self.decimal {
            status_byte |= 0x08;
        }
        proof { lemma_or_fresh_bit(status_byte); }
        if self.break_command {
            status_byte |= 0x10;
        }
        proof { lemma_or_fresh_bit(status_byte); }
        if self.unused {
            status_byte |= 0x20;
        }
        proof { lemma_or_fresh_bit(status_byte); }
        if self.overflow {
            status_byte |= 0x40;
        }
        proof { lemma_or_fresh_bit(status_byte); }
        if self.negative {
            status_byte |= 0x80;
        }
        status_byte
    }

    pub fn from_byte(&mut self, status_byte: u8)
        ensures
            *final(self) == status_flags(status_byte),
    {
        proof {
            lemma_byte_bits(status_byte);
        }
        self.carry = status_byte & 0x01 != 0;
        self.zero = status_byte & 0x02 != 0;
        self.interrupt = status_byte & 0x04 != 0;
        self.decimal = status_byte & 0x08 != 0;
        self.break_command = status_byte & 0x10 != 0;
        self.unused = status_byte & 0x20 != 0;
        self.overflow = status_byte & 0x40 != 0;
        self.negative = status_byte & 0x80 != 0;
    }
}

/// The processor's registers and its cycle counter.
pub struct Cpu {
    pub pc: u16,
    pub sp: u8,
    pub a: u8,
    pub x: u8,
    pub y: u8,
    pub p: ParsedBites,
    pub cycles: u64,
}

impl Cpu {
    pub fn new() -> (r: Self)
        ensures
            r == (Cpu { pc: 0, sp: 0xFD, a: 0, x: 0, y: 0, p: power_on_flags(), cycles: 0 }),
    {
        Self { pc: 0x0000, sp: 0xFD, a: 0x00, x: 0x00, y: 0x00, p: ParsedBites::new(), cycles: 0 }
    }

    /// Loads the program counter from the reset vector and puts every other register back
    /// to its power-on value.
    pub fn internal_reset<B: Bus>(&mut self, bus: &mut B)
        requires
            !reset_effect::<B>(run(*old(self), old(bus)@)).fault,
        ensures
            run(*final(self), final(bus)@) == reset_effect::<B>(run(*old(self), old(bus)@)),
    {
        let hi = bus.read(0xFFFD) as u16;
        let lo = bus.read(0xFFFC) as u16;
        proof {
            lemma_word_parts(hi, lo);
        }
        self.pc = (hi << 8) | lo;
        self.sp = 0xFD;
        self.a = 0x00;
        self.x = 0x00;
        self.y = 0x00;
        self.p = ParsedBites::new();
        self.cycles = 0;
    }

    /// Takes a non-maskable interrupt.
    pub fn nmi<B: Bus>(&mut self, bus: &mut B)
        requires
            !nmi_effect::<B>(run(*old(self), old(bus)@)).fault,
        ensures
            run(*final(self), final(bus)@) == nmi_effect::<B>(run(*old(self), old(bus)@)),
    {
        self.push_u16(bus, self.pc);
        proof {
            lemma_pushed_status(self.p);
        }
        let status_byte = (self.p.to_byte() & !0x10) | 0x20;
        self.push_u8(bus, status_byte);
        self.p.interrupt = true;
        let hi = bus.read(0xFFFB) as u16;
        let lo = bus.read(0xFFFA) as u16;
        proof {
            lemma_word_parts(hi, lo);
        }
        self.pc = (hi << 8) | lo;
        self.cycles += 7;
    }

    /// Executes one instruction and returns the cycles it took.
    pub fn make_step_and_return_cycles<B: Bus>(&mut self, bus: &mut B) -> (cycles: u64)
        requires
            !step::<B>(run(*old(self), old(bus)@)).fault,
        ensures
            run(*final(self), final(bus)@) == step::<B>(run(*old(self), old(bus)@)),
            cycles == final(self).cycles - old(self).cycles,
            cycles == OPCODES_CYCLES@[B::peek(old(bus)@, old(self).pc) as int]
                || cycles == OPCODES_CYCLES@[B::peek(old(bus)@, old(self).pc) as int] + 1,
    {
        let cycle_old = self.cycles;
        let opcode = bus.read(self.pc);
        self.pc += 1;
        self.cycles += opcode_cycles(opcode);
        if opcode < 0x40 {
            self.execute_opcodes_0(bus, opcode);
        } else if opcode < 0x80 {
            self.execute_opcodes_1(bus, opcode);
        } else if opcode < 0xC0 {
            self.execute_opcodes_2(bus, opcode);
        } else {
            self.execute_opcodes_3(bus, opcode);
        }
        self.cycles - cycle_old
    }

    /// Executes an opcode in 0x00..=0x3F.
    #[verifier::rlimit(50)]
    #[verifier::spinoff_prover]
    fn execute_opcodes_0<B: Bus>(&mut self, bus: &mut B, opcode: u8)
        requires
            0x00 <= opcode <= 0x3F,
            !execute_opcode::<B>(run(*old(self), old(bus)@), opcode).fault,
        ensures
            run(*final(self), final(bus)@) == execute_opcode::<B>(run(*old(self), old(bus)@), opcode),
            final(self).cycles == old(self).cycles || final(self).cycles == old(self).cycles + 1,
    {
        broadcast use lemma_execute_implied;

        match opcode {
                0x00 => self.brk(bus),
                0x18 => self.clc(),
                0x38 => self.sec(),
                0x10 => self.bpl(bus),
                0x30 => self.bmi(bus),
                0x20 => self.jsr(bus, AddressingMode::Absolute),
                0x08 => self.php(bus),
                0x28 => self.plp(bus),
                0x07 => self.slo(bus, AddressingMode::ZeroPage),
                0x17 => self.slo(bus, AddressingMode::ZeroPageX),
                0x0F => self.slo(bus, AddressingMode::Absolute),
                0x1F => self.slo(bus, AddressingMode::AbsoluteX),
                0x1B => self.slo(bus, AddressingMode::AbsoluteY),
                0x03 => self.slo(bus, AddressingMode::IndirectX),
                0x13 => self.slo(bus, AddressingMode::IndirectY),
                0x27 => self.rla(bus, AddressingMode::ZeroPage),
                0x37 => self.rla(bus, AddressingMode::ZeroPageX),
                0x2F => self.rla(bus, AddressingMode::Absolute),
                0x3F => self.rla(bus, AddressingMode::AbsoluteX),
                0x3B => self.rla(bus, AddressingMode::AbsoluteY),
                0x23 => self.rla(bus, AddressingMode::IndirectX),
                0x33 => self.rla(bus, AddressingMode::IndirectY),
                0x29 => self.and(bus, AddressingMode::Immediate),
                0x25 => self.and(bus, AddressingMode::ZeroPage),
                0x35 => self.and(bus, AddressingMode::ZeroPageX),
                0x2D => self.and(bus, AddressingMode::Absolute),
                0x3D => self.and(bus, AddressingMode::AbsoluteX),
                0x39 => self.and(bus, AddressingMode::AbsoluteY),
                0x21 => self.and(bus, AddressingMode::IndirectX),
                0x31 => self.and(bus, AddressingMode::IndirectY),
                0x09 => self.ora(bus, AddressingMode::Immediate),
                0x05 => self.ora(bus, AddressingMode::ZeroPage),
                0x15 => self.ora(bus, AddressingMode::ZeroPageX),
                0x0D => self.ora(bus, AddressingMode::Absolute),
                0x1D => self.ora(bus, AddressingMode::AbsoluteX),
                0x19 => self.ora(bus, AddressingMode::AbsoluteY),
                0x01 => self.ora(bus, AddressingMode::IndirectX),
                0x11 => self.ora(bus, AddressingMode::IndirectY),
                0x0A => self.asl(bus, AddressingMode::Accumulator),
                0x06 => self.asl(bus, AddressingMode::ZeroPage),
                0x16 => self.asl(bus, AddressingMode::ZeroPageX),
                0x0E => self.asl(bus, AddressingMode::Absolute),
                0x1E => self.asl(bus, AddressingMode::AbsoluteX),
                0x2A => self.rol(bus, AddressingMode::Accumulator),
                0x26 => self.rol(bus, AddressingMode::ZeroPage),
                0x36 => self.rol(bus, AddressingMode::ZeroPageX),
                0x2E => self.rol(bus, AddressingMode::Absolute),
                0x3E => self.rol(bus, AddressingMode::AbsoluteX),
                0x24 => self.bit(bus, AddressingMode::ZeroPage),
                0x2C => self.bit(bus, AddressingMode::Absolute),
            _ => {
                self.nop();
            },
        }
    }

    /// Executes an opcode in 0x40..=0x7F.
    #[verifier::rlimit(50)]
    #[verifier::spinoff_prover]
    fn execute_opcodes_1<B: Bus>(&mut self, bus: &mut B, opcode: u8)
        requires
            0x40 <= opcode <= 0x7F,
            !execute_opcode::<B>(run(*old(self), old(bus)@), opcode).fault,
        ensures
            run(*final(self), final(bus)@) == execute_opcode::<B>(run(*old(self), old(bus)@), opcode),
            final(self).cycles == old(self).cycles || final(self).cycles == old(self).cycles + 1,
    {
        broadcast use lemma_execute_implied;

        match opcode {
                0x58 => self.cli(),
                0x78 => self.sei(),
                0x40 => self.rti(bus),
                0x50 => self.bvc(bus),
                0x70 => self.bvs(bus),
                0x4C => self.jmp(bus, AddressingMode::Absolute),
                0x6C => self.jmp(bus, AddressingMode::Indirect),
                0x60 => self.rts(bus),
                0x48 => self.pha(bus),
                0x68 => self.pla(bus),
                0x69 => self.adc(bus, AddressingMode::Immediate),
                0x65 => self.adc(bus, AddressingMode::ZeroPage),
                0x75 => self.adc(bus, AddressingMode::ZeroPageX),
                0x6D => self.adc(bus, AddressingMode::Absolute),
                0x7D => self.adc(bus, AddressingMode::AbsoluteX),
                0x79 => self.adc(bus, AddressingMode::AbsoluteY),
                0x61 => self.adc(bus, AddressingMode::IndirectX),
                0x71 => self.adc(bus, AddressingMode::IndirectY),
                0x67 => self.rra(bus, AddressingMode::ZeroPage),
                0x77 => self.rra(bus, AddressingMode::ZeroPageX),
                0x6F => self.rra(bus, AddressingMode::Absolute),
                0x7F => self.rra(bus, AddressingMode::AbsoluteX),
                0x7B => self.rra(bus, AddressingMode::AbsoluteY),
                0x63 => self.rra(bus, AddressingMode::IndirectX),
                0x73 => self.rra(bus, AddressingMode::IndirectY),
                0x49 => self.eor(bus, AddressingMode::Immediate),
                0x45 => self.eor(bus, AddressingMode::ZeroPage),
                0x55 => self.eor(bus, AddressingMode::ZeroPageX),
                0x4D => self.eor(bus, AddressingMode::Absolute),
                0x5D => self.eor(bus, AddressingMode::AbsoluteX),
                0x59 => self.eor(bus, AddressingMode::AbsoluteY),
                0x41 => self.eor(bus, AddressingMode::IndirectX),
                0x51 => self.eor(bus, AddressingMode::IndirectY),
                0x4A => self.lsr(bus, AddressingMode::Accumulator),
                0x46 => self.lsr(bus, AddressingMode::ZeroPage),
                0x56 => self.lsr(bus, AddressingMode::ZeroPageX),
                0x4E => self.lsr(bus, AddressingMode::Absolute),
                0x5E => self.lsr(bus, AddressingMode::AbsoluteX),
                0x6A => self.ror(bus, AddressingMode::Accumulator),
                0x66 => self.ror(bus, AddressingMode::ZeroPage),
                0x76 => self.ror(bus, AddressingMode::ZeroPageX),
                0x6E => self.ror(bus, AddressingMode::Absolute),
                0x7E => self.ror(bus, AddressingMode::AbsoluteX),
            _ => {
                self.nop();
            },
        }
    }

    /// Executes an opcode in 0x80..=0xBF.
    #[verifier::rlimit(50)]
    #[verifier::spinoff_prover]
    fn execute_opcodes_2<B: Bus>(&mut self, bus: &mut B, opcode: u8)
        requires
            0x80 <= opcode <= 0xBF,
            !execute_opcode::<B>(run(*old(self), old(bus)@), opcode).fault,
        ensures
            run(*final(self), final(bus)@) == execute_opcode::<B>(run(*old(self), old(bus)@), opcode),
            final(self).cycles == old(self).cycles || final(self).cycles == old(self).cycles + 1,
    {
        broadcast use lemma_execute_implied;

        match opcode {
                0xB8 => self.clv(),
                0x90 => self.bcc(bus),
                0xB0 => self.bcs(bus),
                0xA9 => self.lda(bus, AddressingMode::Immediate),
                0xA5 => self.lda(bus, AddressingMode::ZeroPage),
                0xB5 => self.lda(bus, AddressingMode::ZeroPageX),
                0xAD => self.lda(bus, AddressingMode::Absolute),
                0xBD => self.lda(bus, AddressingMode::AbsoluteX),
                0xB9 => self.lda(bus, AddressingMode::AbsoluteY),
                0xA1 => self.lda(bus, AddressingMode::IndirectX),
                0xB1 => self.lda(bus, AddressingMode::IndirectY),
                0xA2 => self.ldx(bus, AddressingMode::Immediate),
                0xA6 => self.ldx(bus, AddressingMode::ZeroPage),
                0xB6 => self.ldx(bus, AddressingMode::ZeroPageY),
                0xAE => self.ldx(bus, AddressingMode::Absolute),
                0xBE => self.ldx(bus, AddressingMode::AbsoluteY),
                0xA0 => self.ldy(bus, AddressingMode::Immediate),
                0xA4 => self.ldy(bus, AddressingMode::ZeroPage),
                0xB4 => self.ldy(bus, AddressingMode::ZeroPageX),
                0xAC => self.ldy(bus, AddressingMode::Absolute),
                0xBC => self.ldy(bus, AddressingMode::AbsoluteX),
                0x85 => self.sta(bus, AddressingMode::ZeroPage),
                0x95 => self.sta(bus, AddressingMode::ZeroPageX),
                0x8D => self.sta(bus, AddressingMode::Absolute),
                0x9D => self.sta(bus, AddressingMode::AbsoluteX),
                0x99 => self.sta(bus, AddressingMode::AbsoluteY),
                0x81 => self.sta(bus, AddressingMode::IndirectX),
                0x91 => self.sta(bus, AddressingMode::IndirectY),
                0x86 => self.stx(bus, AddressingMode::ZeroPage),
                0x96 => self.stx(bus, AddressingMode::ZeroPageY),
                0x8E => self.stx(bus, AddressingMode::Absolute),
                0x84 => self.sty(bus, AddressingMode::ZeroPage),
                0x94 => self.sty(bus, AddressingMode::ZeroPageX),
                0x8C => self.sty(bus, AddressingMode::Absolute),
                0xAA => self.tax(),
                0x8A => self.txa(),
                0xA8 => self.tay(),
                0x98 => self.tya(),
                0xBA => self.tsx(),
                0x9A => self.txs(),
                0x88 => self.dey(),
            _ => {
                self.nop();
            },
        }
    }

    /// Executes an opcode in 0xC0..=0xFF.
    #[verifier::rlimit(50)]
    #[verifier::spinoff_prover]
    fn execute_opcodes_3<B: Bus>(&mut self, bus: &mut B, opcode: u8)
        requires
            0xC0 <= opcode <= 0xFF,
            !execute_opcode::<B>(run(*old(self), old(bus)@), opcode).fault,
        ensures
            run(*final(self), final(bus)@) == execute_opcode::<B>(run(*old(self), old(bus)@), opcode),
            final(self).cycles == old(self).cycles || final(self).cycles == old(self).cycles + 1,
    {
        broadcast use lemma_execute_implied;

        match opcode {
                0xEA => self.nop(),
                0xD8 => self.cld(),
                0xF8 => self.sed(),
                0xD0 => self.bne(bus),
                0xF0 => self.beq(bus),
                0xE9 => self.sbc(bus, AddressingMode::Immediate),
                0xE5 => self.sbc(bus, AddressingMode::ZeroPage),
                0xF5 => self.sbc(bus, AddressingMode::ZeroPageX),
                0xED => self.sbc(bus, AddressingMode::Absolute),
                0xFD => self.sbc(bus, AddressingMode::AbsoluteX),
                0xF9 => self.sbc(bus, AddressingMode::AbsoluteY),
                0xE1 => self.sbc(bus, AddressingMode::IndirectX),
                0xF1 => self.sbc(bus, AddressingMode::IndirectY),
                0xC6 => self.dec(bus, AddressingMode::ZeroPage),
                0xD6 => self.dec(bus, AddressingMode::ZeroPageX),
                0xCE => self.dec(bus, AddressingMode::Absolute),
                0xDE => self.dec(bus, AddressingMode::AbsoluteX),
                0xE6 => self.inc(bus, AddressingMode::ZeroPage),
                0xF6 => self.inc(bus, AddressingMode::ZeroPageX),
                0xEE => self.inc(bus, AddressingMode::Absolute),
                0xFE => self.inc(bus, AddressingMode::AbsoluteX),
                0xE7 => self.isb(bus, AddressingMode::ZeroPage),
                0xF7 => self.isb(bus, AddressingMode::ZeroPageX),
                0xEF => self.isb(bus, AddressingMode::Absolute),
                0xFF => self.isb(bus, AddressingMode::AbsoluteX),
                0xFB => self.isb(bus, AddressingMode::AbsoluteY),
                0xE3 => self.isb(bus, AddressingMode::IndirectX),
                0xF3 => self.isb(bus, AddressingMode::IndirectY),
                0xCA => self.dex(),
                0xE8 => self.inx(),
                0xC8 => self.iny(),
                0xC9 => self.compare_accumulator(bus, AddressingMode::Immediate),
                0xC5 => self.compare_accumulator(bus, AddressingMode::ZeroPage),
                0xD5 => self.compare_accumulator(bus, AddressingMode::ZeroPageX),
                0xCD => self.compare_accumulator(bus, AddressingMode::Absolute),
                0xDD => self.compare_accumulator(bus, AddressingMode::AbsoluteX),
                0xD9 => self.compare_accumulator(bus, AddressingMode::AbsoluteY),
                0xC1 => self.compare_accumulator(bus, AddressingMode::IndirectX),
                0xD1 => self.compare_accumulator(bus, AddressingMode::IndirectY),
                0xE0 => self.cpx(bus, AddressingMode::Immediate),
                0xE4 => self.cpx(bus, AddressingMode::ZeroPage),
                0xEC => self.cpx(bus, AddressingMode::Absolute),
                0xC0 => self.cpy(bus, AddressingMode::Immediate),
                0xC4 => self.cpy(bus, AddressingMode::ZeroPage),
                0xCC => self.cpy(bus, AddressingMode::Absolute),
            _ => {
                self.nop();
            },
        }
    }

    fn read_pc_u8<B: Bus>(&mut self, bus: &mut B) -> (val: u8)
        requires
            !fetch_byte::<B>(run(*old(self), old(bus)@)).0.fault,
        ensures
            (run(*final(self), final(bus)@), val) == fetch_byte::<B>(run(*old(self), old(bus)@)),
            final(self).cycles == old(self).cycles,
    {
        let val = bus.read(self.pc);
        self.pc = self.pc.wrapping_add(1);
        val
    }

    fn read_pc_u16<B: Bus>(&mut self, bus: &mut B) -> (val: u16)
        requires
            !fetch_word::<B>(run(*old(self), old(bus)@)).0.fault,
        ensures
            (run(*final(self), final(bus)@), val) == fetch_word::<B>(run(*old(self), old(bus)@)),
            final(self).cycles == old(self).cycles,
    {
        let lo = bus.read(self.pc) as u16;
        let hi = bus.read(self.pc.wrapping_add(1)) as u16;
        self.pc = self.pc.wrapping_add(2);
        proof {
            lemma_word_parts(hi, lo);
        }
        (hi << 8) | lo
    }

    fn pop_u8<B: Bus>(&mut self, bus: &mut B) -> (val: u8)
        requires
            !pop_byte::<B>(run(*old(self), old(bus)@)).0.fault,
        ensures
            (run(*final(self), final(bus)@), val) == pop_byte::<B>(run(*old(self), old(bus)@)),
            final(self).cycles == old(self).cycles,
    {
        self.sp = self.sp.wrapping_add(1);
        bus.read(0x0100 + self.sp as u16)
    }

    fn push_u16<B: Bus>(&mut self, bus: &mut B, value: u16)
        requires
            !push_word::<B>(run(*old(self), old(bus)@), value).fault,
        ensures
            run(*final(self), final(bus)@) == push_word::<B>(run(*old(self), old(bus)@), value),
            final(self).cycles == old(self).cycles,
    {
        proof {
            lemma_split_word(value);
        }
        bus.write(0x0100 + self.sp as u16, (value >> 8) as u8);
        self.sp = self.sp.wrapping_sub(1);
        bus.write(0x0100 + self.sp as u16, (value & 0xFF) as u8);
        self.sp = self.sp.wrapping_sub(1);
    }

    fn pop_u16<B: Bus>(&mut self, bus: &mut B) -> (val: u16)
        requires
            !pop_word::<B>(run(*old(self), old(bus)@)).0.fault,
        ensures
            (run(*final(self), final(bus)@), val) == pop_word::<B>(run(*old(self), old(bus)@)),
            final(self).cycles == old(self).cycles,
    {
        self.sp = self.sp.wrapping_add(1);
        let low = bus.read(0x0100 + self.sp as u16) as u16;
        self.sp = self.sp.wrapping_add(1);
        let high = bus.read(0x0100 + self.sp as u16) as u16;
        proof {
            lemma_word_parts(high, low);
        }
        (high << 8) | low
    }

    fn push_u8<B: Bus>(&mut self, bus: &mut B, value: u8)
        requires
            !push_byte::<B>(run(*old(self), old(bus)@), value).fault,
        ensures
            run(*final(self), final(bus)@) == push_byte::<B>(run(*old(self), old(bus)@), value),
            final(self).cycles == old(self).cycles,
    {
        bus.write(0x0100 + self.sp as u16, value);
        self.sp = self.sp.wrapping_sub(1);
    }

    fn page_cross_cycles(&mut self, address_1: u16, address_2: u16) -> (r: u16)
        ensures
            r == (if page_crossed(address_1, address_2) { 1u16 } else { 0u16 }),
            *final(self) == *old(self),
    {
        proof {
            lemma_split_word(address_1);
            lemma_split_word(address_2);
        }
        let page_1 = address_1 >> 8;
        let page_2 = address_2 >> 8;
        if page_1 == page_2 {
            0
        } else {
            1
        }
    }

    fn absolute_indexed_address<B: Bus>(&mut self, bus: &mut B, index: u8, is_write: bool) -> (address: u16)
        requires
            !absolute_indexed::<B>(run(*old(self), old(bus)@), index, is_write).0.fault,
        ensures
            (run(*final(self), final(bus)@), address) == absolute_indexed::<B>(run(*old(self), old(bus)@), index, is_write),
            final(self).cycles == old(self).cycles || final(self).cycles == old(self).cycles + 1,
    {
        let base_address = self.read_pc_u16(bus);
        let target_address = base_address.wrapping_add(index as u16);
        if !is_write {
            let extra = self.page_cross_cycles(base_address, target_address);
            self.cycles += extra as u64;
        }
        target_address
    }

    fn indirect_indexed_address<B: Bus>(&mut self, bus: &mut B, is_write: bool) -> (address: u16)
        requires
            !indirect_indexed::<B>(run(*old(self), old(bus)@), is_write).0.fault,
        ensures
            (run(*final(self), final(bus)@), address) == indirect_indexed::<B>(run(*old(self), old(bus)@), is_write),
            final(self).cycles == old(self).cycles || final(self).cycles == old(self).cycles + 1,
    {
        let base_zero_page = self.read_pc_u8(bus);
        let lo = bus.read(base_zero_page as u16) as u16;
        let hi = bus.read(base_zero_page.wrapping_add(1) as u16) as u16;
        proof {
            lemma_word_parts(hi, lo);
        }
        let base_address = (hi << 8) | lo;
        let target_address = base_address.wrapping_add(self.y as u16);
        if !is_write {
            let extra = self.page_cross_cycles(base_address, target_address);
            self.cycles += extra as u64;
        }
        target_address
    }

    fn indexed_indirect_address<B: Bus>(&mut self, bus: &mut B) -> (address: u16)
        requires
            !indexed_indirect::<B>(run(*old(self), old(bus)@)).0.fault,
        ensures
            (run(*final(self), final(bus)@), address) == indexed_indirect::<B>(run(*old(self), old(bus)@)),
            final(self).cycles == old(self).cycles,
    {
        let base_zero_page = self.read_pc_u8(bus);
        let ptr = base_zero_page.wrapping_add(self.x);
        let lo = bus.read(ptr as u16) as u16;
        let hi = bus.read(ptr.wrapping_add(1) as u16) as u16;
        proof {
            lemma_word_parts(hi, lo);
        }
        (hi << 8) | lo
    }

    fn indirect_address<B: Bus>(&mut self, bus: &mut B) -> (address: u16)
        requires
            !indirect::<B>(run(*old(self), old(bus)@)).0.fault,
        ensures
            (run(*final(self), final(bus)@), address) == indirect::<B>(run(*old(self), old(bus)@)),
            final(self).cycles == old(self).cycles,
    {
        let base_address = self.read_pc_u16(bus);
        let lo = bus.read(base_address) as u16;
        proof {
            lemma_split_word(base_address);
            lemma_page_start(base_address);
        }
        let hi = if (base_address & 0x00FF) == 0x00FF {
            bus.read(base_address & 0xFF00) as u16
        } else {
            bus.read(base_address.wrapping_add(1)) as u16
        };
        proof {
            lemma_word_parts(hi, lo);
        }
        (hi << 8) | lo
    }

    #[verifier::rlimit(30)]
    #[verifier::spinoff_prover]
    fn get_operand_address<B: Bus>(&mut self, bus: &mut B, addressing_mode: AddressingMode, is_write: bool) -> (address: u16)
        requires
            !operand::<B>(run(*old(self), old(bus)@), addressing_mode, is_write).0.fault,
        ensures
            (run(*final(self), final(bus)@), address) == operand::<B>(run(*old(self), old(bus)@), addressing_mode, is_write),
            final(self).cycles == old(self).cycles || final(self).cycles == old(self).cycles + 1,
    {
        reveal(operand);
        match addressing_mode {
            AddressingMode::Immediate => {
                let addr = self.pc;
                self.pc += 1;
                addr
            },
            AddressingMode::ZeroPage => self.read_pc_u8(bus) as u16,
            AddressingMode::ZeroPageX => {
                let base = self.read_pc_u8(bus);
                base.wrapping_add(self.x) as u16
            },
            AddressingMode::ZeroPageY => {
                let base = self.read_pc_u8(bus);
                base.wrapping_add(self.y) as u16
            },
            AddressingMode::Absolute => self.read_pc_u16(bus),
            AddressingMode::AbsoluteX => self.absolute_indexed_address(bus, self.x, is_write),
            AddressingMode::AbsoluteY => self.absolute_indexed_address(bus, self.y, is_write),
            AddressingMode::IndirectY => self.indirect_indexed_address(bus, is_write),
            AddressingMode::IndirectX => self.indexed_indirect_address(bus),
            AddressingMode::Indirect => self.indirect_address(bus),
            AddressingMode::Accumulator => 0,
        }
    }

    fn branch<B: Bus>(&mut self, bus: &mut B, condition: bool)
        requires
            !branch_effect::<B>(run(*old(self), old(bus)@), condition).fault,
        ensures
            run(*final(self), final(bus)@) == branch_effect::<B>(run(*old(self), old(bus)@), condition),
            final(self).cycles == old(self).cycles,
    {
        let offset = self.read_pc_u8(bus);
        if condition {
            proof {
                lemma_signed_offset(offset);
            }
            let signed_offset = offset as i8 as i16 as u16;
            self.pc = self.pc.wrapping_add(signed_offset);
        }
    }

    fn update_zero_and_negative_flags(&mut self, result: u8)
        ensures
            *final(self) == set_nz(*old(self), result),
    {
        proof {
            lemma_byte_bits(result);
        }
        self.p.zero = result == 0;
        self.p.negative = (result & 0x80) != 0;
    }

    fn update_carry_and_return_u8_result(&mut self, value: u16) -> (r: u8)
        ensures
            r == wrap8(value as int),
            *final(self) == (Cpu { p: ParsedBites { carry: value > 255, ..old(self).p }, ..*old(self) }),
    {
        proof {
            lemma_split_word(value);
        }
        if value > 0xFF {
            self.p.carry = true;
            (value & 0x00FF) as u8
        } else {
            self.p.carry = false;
            value as u8
        }
    }

    fn update_overflow(&mut self, register_a: u8, value: u8, result: u8)
        ensures
            *final(self) == (Cpu { p: ParsedBites { overflow: overflowed(register_a, value, result), ..old(self).p }, ..*old(self) }),
    {
        proof {
            lemma_overflow_bits(register_a, value, result);
        }
        self.p.overflow = ((register_a ^ result) & (value ^ result) & 0x80) != 0;
    }

    fn beq<B: Bus>(&mut self, bus: &mut B)
        requires
            !execute::<B>(run(*old(self), old(bus)@), Instruction::Beq).fault,
        ensures
            run(*final(self), final(bus)@) == execute::<B>(run(*old(self), old(bus)@), Instruction::Beq),
            final(self).cycles == old(self).cycles || final(self).cycles == old(self).cycles + 1,
    {
        proof {
            assert(execute::<B>(run(*old(self), old(bus)@), Instruction::Beq) == branch_effect::<B>(run(*old(self), old(bus)@), old(self).p.zero)) by {
                reveal(execute);
            }
        }
        let cond = self.p.zero == true;
        self.branch(bus, cond);
    }

    fn bcs<B: Bus>(&mut self, bus: &mut B)
        requires
            !execute::<B>(run(*old(self), old(bus)@), Instruction::Bcs).fault,
        ensures
            run(*final(self), final(bus)@) == execute::<B>(run(*old(self), old(bus)@), Instruction::Bcs),
            final(self).cycles == old(self).cycles || final(self).cycles == old(self).cycles + 1,
    {
        proof {
            assert(execute::<B>(run(*old(self), old(bus)@), Instruction::Bcs) == branch_effect::<B>(run(*old(self), old(bus)@), old(self).p.carry)) by {
                reveal(execute);
            }
        }
        let cond = self.p.carry == true;
        self.branch(bus, cond);
    }

    fn bcc<B: Bus>(&mut self, bus: &mut B)
        requires
            !execute::<B>(run(*old(self), old(bus)@), Instruction::Bcc).fault,
        ensures
            run(*final(self), final(bus)@) == execute::<B>(run(*old(self), old(bus)@), Instruction::Bcc),
            final(self).cycles == old(self).cycles || final(self).cycles == old(self).cycles + 1,
    {
        proof {
            assert(execute::<B>(run(*old(self), old(bus)@), Instruction::Bcc) == branch_effect::<B>(run(*old(self), old(bus)@), !old(self).p.carry)) by {
                reveal(execute);
            }
        }
        let cond = self.p.carry == false;
        self.branch(bus, cond);
    }

    fn bmi<B: Bus>(&mut self, bus: &mut B)
        requires
            !execute::<B>(run(*old(self), old(bus)@), Instruction::Bmi).fault,
        ensures
            run(*final(self), final(bus)@) == execute::<B>(run(*old(self), old(bus)@), Instruction::Bmi),
            final(self).cycles == old(self).cycles || final(self).cycles == old(self).cycles + 1,
    {
        proof {
            assert(execute::<B>(run(*old(self), old(bus)@), Instruction::Bmi) == branch_effect::<B>(run(*old(self), old(bus)@), old(self).p.negative)) by {
                reveal(execute);
            }
        }
        let cond = self.p.negative == true;
        self.branch(bus, cond);
    }

    fn bne<B: Bus>(&mut self, bus: &mut B)
        requires
            !execute::<B>(run(*old(self), old(bus)@), Instruction::Bne).fault,
        ensures
            run(*final(self), final(bus)@) == execute::<B>(run(*old(self), old(bus)@), Instruction::Bne),
            final(self).cycles == old(self).cycles || final(self).cycles == old(self).cycles + 1,
    {
        proof {
            assert(execute::<B>(run(*old(self), old(bus)@), Instruction::Bne) == branch_effect::<B>(run(*old(self), old(bus)@), !old(self).p.zero)) by {
                reveal(execute);
            }
        }
        let cond = self.p.zero == false;
        self.branch(bus, cond);
    }

    fn bpl<B: Bus>(&mut self, bus: &mut B)
        requires
            !execute::<B>(run(*old(self), old(bus)@), Instruction::Bpl).fault,
        ensures
            run(*final(self), final(bus)@) == execute::<B>(run(*old(self), old(bus)@), Instruction::Bpl),
            final(self).cycles == old(self).cycles || final(self).cycles == old(self).cycles + 1,
    {
        proof {
            assert(execute::<B>(run(*old(self), old(bus)@), Instruction::Bpl) == branch_effect::<B>(run(*old(self), old(bus)@), !old(self).p.negative)) by {
                reveal(execute);
            }
        }
        let cond = self.p.negative == false;
        self.branch(bus, cond);
    }

    fn bvc<B: Bus>(&mut self, bus: &mut B)
        requires
            !execute::<B>(run(*old(self), old(bus)@), Instruction::Bvc).fault,
        ensures
            run(*final(self), final(bus)@) == execute::<B>(run(*old(self), old(bus)@), Instruction::Bvc),
            final(self).cycles == old(self).cycles || final(self).cycles == old(self).cycles + 1,
    {
        proof {
            assert(execute::<B>(run(*old(self), old(bus)@), Instruction::Bvc) == branch_effect::<B>(run(*old(self), old(bus)@), !old(self).p.overflow)) by {
                reveal(execute);
            }
        }
        let cond = self.p.overflow == false;
        self.branch(bus, cond);
    }

    fn bvs<B: Bus>(&mut self, bus: &mut B)
        requires
            !execute::<B>(run(*old(self), old(bus)@), Instruction::Bvs).fault,
        ensures
            run(*final(self), final(bus)@) == execute::<B>(run(*old(self), old(bus)@), Instruction::Bvs),
            final(self).cycles == old(self).cycles || final(self).cycles == old(self).cycles + 1,
    {
        proof {
            assert(execute::<B>(run(*old(self), old(bus)@), Instruction::Bvs) == branch_effect::<B>(run(*old(self), old(bus)@), old(self).p.overflow)) by {
                reveal(execute);
            }
        }
        let cond = self.p.overflow == true;
        self.branch(bus, cond);
    }

    fn lda<B: Bus>(&mut self, bus: &mut B, addressing_mode: AddressingMode)
        requires
            !execute::<B>(run(*old(self), old(bus)@), Instruction::Lda(addressing_mode)).fault,
        ensures
            run(*final(self), final(bus)@) == execute::<B>(run(*old(self), old(bus)@), Instruction::Lda(addressing_mode)),
            final(self).cycles == old(self).cycles || final(self).cycles == old(self).cycles + 1,
    {
        proof {
            assert(execute::<B>(run(*old(self), old(bus)@), Instruction::Lda(addressing_mode)) == load_effect::<B>(run(*old(self), old(bus)@), addressing_mode, Register::A)) by {
                reveal(execute);
            }
        }
        let operand_address = self.get_operand_address(bus, addressing_mode, false);
        self.a = bus.read(operand_address);
        self.update_zero_and_negative_flags(self.a);
    }

    fn ldx<B: Bus>(&mut self, bus: &mut B, addressing_mode: AddressingMode)
        requires
            !execute::<B>(run(*old(self), old(bus)@), Instruction::Ldx(addressing_mode)).fault,
        ensures
            run(*final(self), final(bus)@) == execute::<B>(run(*old(self), old(bus)@), Instruction::Ldx(addressing_mode)),
            final(self).cycles == old(self).cycles || final(self).cycles == old(self).cycles + 1,
    {
        proof {
            assert(execute::<B>(run(*old(self), old(bus)@), Instruction::Ldx(addressing_mode)) == load_effect::<B>(run(*old(self), old(bus)@), addressing_mode, Register::X)) by {
                reveal(execute);
            }
        }
        let operand_address = self.get_operand_address(bus, addressing_mode, false);
        self.x = bus.read(operand_address);
        self.update_zero_and_negative_flags(self.x);
    }

    fn ldy<B: Bus>(&mut self, bus: &mut B, addressing_mode: AddressingMode)
        requires
            !execute::<B>(run(*old(self), old(bus)@), Instruction::Ldy(addressing_mode)).fault,
        ensures
            run(*final(self), final(bus)@) == execute::<B>(run(*old(self), old(bus)@), Instruction::Ldy(addressing_mode)),
            final(self).cycles == old(self).cycles || final(self).cycles == old(self).cycles + 1,
    {
        proof {
            assert(execute::<B>(run(*old(self), old(bus)@), Instruction::Ldy(addressing_mode)) == load_effect::<B>(run(*old(self), old(bus)@), addressing_mode, Register::Y)) by {
                reveal(execute);
            }
        }
        let operand_address = self.get_operand_address(bus, addressing_mode, false);
        self.y = bus.read(operand_address);
        self.update_zero_and_negative_flags(self.y);
    }

    fn sta<B: Bus>(&mut self, bus: &mut B, addressing_mode: AddressingMode)
        requires
            !execute::<B>(run(*old(self), old(bus)@), Instruction::Sta(addressing_mode)).fault,
        ensures
            run(*final(self), final(bus)@) == execute::<B>(run(*old(self), old(bus)@), Instruction::Sta(addressing_mode)),
            final(self).cycles == old(self).cycles || final(self).cycles == old(self).cycles + 1,
    {
        proof {
            assert(execute::<B>(run(*old(self), old(bus)@), Instruction::Sta(addressing_mode)) == store_effect::<B>(run(*old(self), old(bus)@), addressing_mode, Register::A)) by {
                reveal(execute);
            }
        }
        let address = self.get_operand_address(bus, addressing_mode, false);
        bus.write(address, self.a);
    }

    fn stx<B: Bus>(&mut self, bus: &mut B, addressing_mode: AddressingMode)
        requires
            !execute::<B>(run(*old(self), old(bus)@), Instruction::Stx(addressing_mode)).fault,
        ensures
            run(*final(self), final(bus)@) == execute::<B>(run(*old(self), old(bus)@), Instruction::Stx(addressing_mode)),
            final(self).cycles == old(self).cycles || final(self).cycles == old(self).cycles + 1,
    {
        proof {
            assert(execute::<B>(run(*old(self), old(bus)@), Instruction::Stx(addressing_mode)) == store_effect::<B>(run(*old(self), old(bus)@), addressing_mode, Register::X)) by {
                reveal(execute);
            }
        }
        let address = self.get_operand_address(bus, addressing_mode, false);
        bus.write(address, self.x);
    }

    fn sty<B: Bus>(&mut self, bus: &mut B, addressing_mode: AddressingMode)
        requires
            !execute::<B>(run(*old(self), old(bus)@), Instruction::Sty(addressing_mode)).fault,
        ensures
            run(*final(self), final(bus)@) == execute::<B>(run(*old(self), old(bus)@), Instruction::Sty(addressing_mode)),
            final(self).cycles == old(self).cycles || final(self).cycles == old(self).cycles + 1,
    {
        proof {
            assert(execute::<B>(run(*old(self), old(bus)@), Instruction::Sty(addressing_mode)) == store_effect::<B>(run(*old(self), old(bus)@), addressing_mode, Register::Y)) by {
                reveal(execute);
            }
        }
        let address = self.get_operand_address(bus, addressing_mode, false);
        bus.write(address, self.y);
    }

    fn and<B: Bus>(&mut self, bus: &mut B, addressing_mode: AddressingMode)
        requires
            !execute::<B>(run(*old(self), old(bus)@), Instruction::And(addressing_mode)).fault,
        ensures
            run(*final(self), final(bus)@) == execute::<B>(run(*old(self), old(bus)@), Instruction::And(addressing_mode)),
            final(self).cycles == old(self).cycles || final(self).cycles == old(self).cycles + 1,
    {
        proof {
            assert(execute::<B>(run(*old(self), old(bus)@), Instruction::And(addressing_mode)) == logic_effect::<B>(run(*old(self), old(bus)@), addressing_mode, Logic::And)) by {
                reveal(execute);
            }
        }
        let addr = self.get_operand_address(bus, addressing_mode, false);
        let value = bus.read(addr);
        self.a = self.a & value;
        self.update_zero_and_negative_flags(self.a);
    }

    fn ora<B: Bus>(&mut self, bus: &mut B, addressing_mode: AddressingMode)
        requires
            !execute::<B>(run(*old(self), old(bus)@), Instruction::Ora(addressing_mode)).fault,
        ensures
            run(*final(self), final(bus)@) == execute::<B>(run(*old(self), old(bus)@), Instruction::Ora(addressing_mode)),
            final(self).cycles == old(self).cycles || final(self).cycles == old(self).cycles + 1,
    {
        proof {
            assert(execute::<B>(run(*old(self), old(bus)@), Instruction::Ora(addressing_mode)) == logic_effect::<B>(run(*old(self), old(bus)@), addressing_mode, Logic::Or)) by {
                reveal(execute);
            }
        }
        let addr = self.get_operand_address(bus, addressing_mode, false);
        let value = bus.read(addr);
        self.a = self.a | value;
        self.update_zero_and_negative_flags(self.a);
    }

    fn eor<B: Bus>(&mut self, bus: &mut B, addressing_mode: AddressingMode)
        requires
            !execute::<B>(run(*old(self), old(bus)@), Instruction::Eor(addressing_mode)).fault,
        ensures
            run(*final(self), final(bus)@) == execute::<B>(run(*old(self), old(bus)@), Instruction::Eor(addressing_mode)),
            final(self).cycles == old(self).cycles || final(self).cycles == old(self).cycles + 1,
    {
        proof {
            assert(execute::<B>(run(*old(self), old(bus)@), Instruction::Eor(addressing_mode)) == logic_effect::<B>(run(*old(self), old(bus)@), addressing_mode, Logic::Xor)) by {
                reveal(execute);
            }
        }
        let addr = self.get_operand_address(bus, addressing_mode, false);
        let value = bus.read(addr);
        self.a = self.a ^ value;
        self.update_zero_and_negative_flags(self.a);
    }

    fn compare_accumulator<B: Bus>(&mut self, bus: &mut B, addressing_mode: AddressingMode)
        requires
            !execute::<B>(run(*old(self), old(bus)@), Instruction::Cmp(addressing_mode)).fault,
        ensures
            run(*final(self), final(bus)@) == execute::<B>(run(*old(self), old(bus)@), Instruction::Cmp(addressing_mode)),
            final(self).cycles == old(self).cycles || final(self).cycles == old(self).cycles + 1,
    {
        proof {
            assert(execute::<B>(run(*old(self), old(bus)@), Instruction::Cmp(addressing_mode)) == compare_effect::<B>(run(*old(self), old(bus)@), addressing_mode, Register::A)) by {
                reveal(execute);
            }
        }
        let address = self.get_operand_address(bus, addressing_mode, false);
        let value = bus.read(address);
        self.p.carry = self.a >= value;
        self.update_zero_and_negative_flags(self.a.wrapping_sub(value));
    }

    fn cpx<B: Bus>(&mut self, bus: &mut B, addressing_mode: AddressingMode)
        requires
            !execute::<B>(run(*old(self), old(bus)@), Instruction::Cpx(addressing_mode)).fault,
        ensures
            run(*final(self), final(bus)@) == execute::<B>(run(*old(self), old(bus)@), Instruction::Cpx(addressing_mode)),
            final(self).cycles == old(self).cycles || final(self).cycles == old(self).cycles + 1,
    {
        proof {
            assert(execute::<B>(run(*old(self), old(bus)@), Instruction::Cpx(addressing_mode)) == compare_effect::<B>(run(*old(self), old(bus)@), addressing_mode, Register::X)) by {
                reveal(execute);
            }
        }
        let address = self.get_operand_address(bus, addressing_mode, false);
        let value = bus.read(address);
        self.p.carry = self.x >= value;
        self.update_zero_and_negative_flags(self.x.wrapping_sub(value));
    }

    fn cpy<B: Bus>(&mut self, bus: &mut B, addressing_mode: AddressingMode)
        requires
            !execute::<B>(run(*old(self), old(bus)@), Instruction::Cpy(addressing_mode)).fault,
        ensures
            run(*final(self), final(bus)@) == execute::<B>(run(*old(self), old(bus)@), Instruction::Cpy(addressing_mode)),
            final(self).cycles == old(self).cycles || final(self).cycles == old(self).cycles + 1,
    {
        proof {
            assert(execute::<B>(run(*old(self), old(bus)@), Instruction::Cpy(addressing_mode)) == compare_effect::<B>(run(*old(self), old(bus)@), addressing_mode, Register::Y)) by {
                reveal(execute);
            }
        }
        let address = self.get_operand_address(bus, addressing_mode, false);
        let value = bus.read(address);
        self.p.carry = self.y >= value;
        self.update_zero_and_negative_flags(self.y.wrapping_sub(value));
    }

    fn dec<B: Bus>(&mut self, bus: &mut B, addressing_mode: AddressingMode)
        requires
            !execute::<B>(run(*old(self), old(bus)@), Instruction::Dec(addressing_mode)).fault,
        ensures
            run(*final(self), final(bus)@) == execute::<B>(run(*old(self), old(bus)@), Instruction::Dec(addressing_mode)),
            final(self).cycles == old(self).cycles || final(self).cycles == old(self).cycles + 1,
    {
        proof {
            assert(execute::<B>(run(*old(self), old(bus)@), Instruction::Dec(addressing_mode)) == step_memory_effect::<B>(run(*old(self), old(bus)@), addressing_mode, -1)) by {
                reveal(execute);
            }
        }
        let address = self.get_operand_address(bus, addressing_mode, true);
        let value = bus.read(address).wrapping_sub(1);
        bus.write(address, value);
        self.update_zero_and_negative_flags(value);
    }

    fn inc<B: Bus>(&mut self, bus: &mut B, addressing_mode: AddressingMode)
        requires
            !execute::<B>(run(*old(self), old(bus)@), Instruction::Inc(addressing_mode)).fault,
        ensures
            run(*final(self), final(bus)@) == execute::<B>(run(*old(self), old(bus)@), Instruction::Inc(addressing_mode)),
            final(self).cycles == old(self).cycles || final(self).cycles == old(self).cycles + 1,
    {
        proof {
            assert(execute::<B>(run(*old(self), old(bus)@), Instruction::Inc(addressing_mode)) == step_memory_effect::<B>(run(*old(self), old(bus)@), addressing_mode, 1)) by {
                reveal(execute);
            }
        }
        let address = self.get_operand_address(bus, addressing_mode, true);
        let value = bus.read(address).wrapping_add(1);
        bus.write(address, value);
        self.update_zero_and_negative_flags(value);
    }

    fn bit<B: Bus>(&mut self, bus: &mut B, addressing_mode: AddressingMode)
        requires
            !execute::<B>(run(*old(self), old(bus)@), Instruction::Bit(addressing_mode)).fault,
        ensures
            run(*final(self), final(bus)@) == execute::<B>(run(*old(self), old(bus)@), Instruction::Bit(addressing_mode)),
            final(self).cycles == old(self).cycles || final(self).cycles == old(self).cycles + 1,
    {
        proof {
            assert(execute::<B>(run(*old(self), old(bus)@), Instruction::Bit(addressing_mode)) == bit_effect::<B>(run(*old(self), old(bus)@), addressing_mode)) by {
                reveal(execute);
            }
        }
        let addr = self.get_operand_address(bus, addressing_mode, false);
        let value = bus.read(addr);
        proof {
            lemma_byte_bits(value);
            lemma_byte_shifts(value, 0);
        }
        self.p.zero = (self.a & value) == 0;
        self.p.negative = (value & 0x80) != 0;
        self.p.overflow = (value & 0x40) != 0;
    }

    fn brk<B: Bus>(&mut self, bus: &mut B)
        requires
            !execute::<B>(run(*old(self), old(bus)@), Instruction::Brk).fault,
        ensures
            run(*final(self), final(bus)@) == execute::<B>(run(*old(self), old(bus)@), Instruction::Brk),
            final(self).cycles == old(self).cycles || final(self).cycles == old(self).cycles + 1,
    {
        proof {
            assert(execute::<B>(run(*old(self), old(bus)@), Instruction::Brk) == brk_effect::<B>(run(*old(self), old(bus)@))) by {
                reveal(execute);
            }
        }
        self.pc = self.pc.wrapping_add(1);
        self.push_u16(bus, self.pc);
        proof {
            lemma_pushed_status(self.p);
        }
        let status_byte = self.p.to_byte() | 0x30;
        self.push_u8(bus, status_byte);
        self.p.interrupt = true;
        let lo = bus.read(0xFFFE) as u16;
        let hi = bus.read(0xFFFF) as u16;
        proof {
            lemma_word_parts(hi, lo);
        }
        self.pc = (hi << 8) | lo;
    }

    fn isb<B: Bus>(&mut self, bus: &mut B, addressing_mode: AddressingMode)
        requires
            !execute::<B>(run(*old(self), old(bus)@), Instruction::Isb(addressing_mode)).fault,
        ensures
            run(*final(self), final(bus)@) == execute::<B>(run(*old(self), old(bus)@), Instruction::Isb(addressing_mode)),
            final(self).cycles == old(self).cycles || final(self).cycles == old(self).cycles + 1,
    {
        proof {
            assert(execute::<B>(run(*old(self), old(bus)@), Instruction::Isb(addressing_mode)) == isb_effect::<B>(run(*old(self), old(bus)@), addressing_mode)) by {
                reveal(execute);
            }
        }
        let address = self.get_operand_address(bus, addressing_mode, false);
        let value = bus.read(address).wrapping_add(1);
        bus.write(address, value);
        proof {
            lemma_byte_complement(value);
        }
        let inverted_value = !value;
        let result = (self.a as u16) + (inverted_value as u16) + (self.p.carry as u16);
        let old_a = self.a;
        self.a = self.update_carry_and_return_u8_result(result);
        self.update_zero_and_negative_flags(self.a);
        proof {
            lemma_overflow_bits(old_a, inverted_value, self.a);
        }
        self.p.overflow = ((old_a ^ self.a) & (inverted_value ^ self.a) & 0x80) != 0;
    }

    fn jmp<B: Bus>(&mut self, bus: &mut B, addressing_mode: AddressingMode)
        requires
            !execute::<B>(run(*old(self), old(bus)@), Instruction::Jmp(addressing_mode)).fault,
        ensures
            run(*final(self), final(bus)@) == execute::<B>(run(*old(self), old(bus)@), Instruction::Jmp(addressing_mode)),
            final(self).cycles == old(self).cycles || final(self).cycles == old(self).cycles + 1,
    {
        proof {
            assert(execute::<B>(run(*old(self), old(bus)@), Instruction::Jmp(addressing_mode)) == jmp_effect::<B>(run(*old(self), old(bus)@), addressing_mode)) by {
                reveal(execute);
            }
        }
        let address = self.get_operand_address(bus, addressing_mode, false);
        self.pc = address;
    }

    fn jsr<B: Bus>(&mut self, bus: &mut B, addressing_mode: AddressingMode)
        requires
            !execute::<B>(run(*old(self), old(bus)@), Instruction::Jsr(addressing_mode)).fault,
        ensures
            run(*final(self), final(bus)@) == execute::<B>(run(*old(self), old(bus)@), Instruction::Jsr(addressing_mode)),
            final(self).cycles == old(self).cycles || final(self).cycles == old(self).cycles + 1,
    {
        proof {
            assert(execute::<B>(run(*old(self), old(bus)@), Instruction::Jsr(addressing_mode)) == jsr_effect::<B>(run(*old(self), old(bus)@), addressing_mode)) by {
                reveal(execute);
            }
        }
        let ghost r0 = run(*self, bus@);
        let address = self.get_operand_address(bus, addressing_mode, false);
        let ghost r1 = run(*self, bus@);
        let ghost pushed = push_word::<B>(r1, wrap16(r1.cpu.pc - 1));
        assert(jsr_effect::<B>(r0, addressing_mode) == with_cpu(pushed, Cpu { pc: address, ..pushed.cpu }));
        assert(!pushed.fault);
        self.push_u16(bus, self.pc.wrapping_sub(1));
        assert(run(*self, bus@) == pushed);
        self.pc = address;
    }

    fn lsr<B: Bus>(&mut self, bus: &mut B, addressing_mode: AddressingMode)
        requires
            !execute::<B>(run(*old(self), old(bus)@), Instruction::Lsr(addressing_mode)).fault,
        ensures
            run(*final(self), final(bus)@) == execute::<B>(run(*old(self), old(bus)@), Instruction::Lsr(addressing_mode)),
            final(self).cycles == old(self).cycles || final(self).cycles == old(self).cycles + 1,
    {
        proof {
            assert(execute::<B>(run(*old(self), old(bus)@), Instruction::Lsr(addressing_mode)) == shift_effect::<B>(run(*old(self), old(bus)@), addressing_mode, Shift::Lsr)) by {
                reveal(execute);
            }
        }
        if addressing_mode == AddressingMode::Accumulator {
            proof {
                lemma_byte_bits(self.a);
            }
            self.p.carry = (self.a & 0x01) != 0;
            self.a >>= 1;
            self.update_zero_and_negative_flags(self.a);
        } else {
            let address = self.get_operand_address(bus, addressing_mode, true);
            let value = bus.read(address);
            proof {
                lemma_byte_bits(value);
            }
            self.p.carry = (value & 0x01) != 0;
            let result = value >> 1;
            self.update_zero_and_negative_flags(result);
            bus.write(address, result);
        }
    }

    fn pha<B: Bus>(&mut self, bus: &mut B)
        requires
            !execute::<B>(run(*old(self), old(bus)@), Instruction::Pha).fault,
        ensures
            run(*final(self), final(bus)@) == execute::<B>(run(*old(self), old(bus)@), Instruction::Pha),
            final(self).cycles == old(self).cycles || final(self).cycles == old(self).cycles + 1,
    {
        proof {
            assert(execute::<B>(run(*old(self), old(bus)@), Instruction::Pha) == push_byte::<B>(run(*old(self), old(bus)@), old(self).a)) by {
                reveal(execute);
            }
        }
        self.push_u8(bus, self.a);
    }

    fn php<B: Bus>(&mut self, bus: &mut B)
        requires
            !execute::<B>(run(*old(self), old(bus)@), Instruction::Php).fault,
        ensures
            run(*final(self), final(bus)@) == execute::<B>(run(*old(self), old(bus)@), Instruction::Php),
            final(self).cycles == old(self).cycles || final(self).cycles == old(self).cycles + 1,
    {
        proof {
            assert(execute::<B>(run(*old(self), old(bus)@), Instruction::Php) == push_byte::<B>(run(*old(self), old(bus)@), pushed_status(old(self).p))) by {
                reveal(execute);
            }
        }
        proof {
            lemma_pushed_status(self.p);
        }
        let status_byte = self.p.to_byte() | 0x30;
        self.push_u8(bus, status_byte);
    }

    fn pla<B: Bus>(&mut self, bus: &mut B)
        requires
            !execute::<B>(run(*old(self), old(bus)@), Instruction::Pla).fault,
        ensures
            run(*final(self), final(bus)@) == execute::<B>(run(*old(self), old(bus)@), Instruction::Pla),
            final(self).cycles == old(self).cycles || final(self).cycles == old(self).cycles + 1,
    {
        proof {
            assert(execute::<B>(run(*old(self), old(bus)@), Instruction::Pla) == pla_effect::<B>(run(*old(self), old(bus)@))) by {
                reveal(execute);
            }
        }
        self.a = self.pop_u8(bus);
        self.update_zero_and_negative_flags(self.a);
    }

    fn plp<B: Bus>(&mut self, bus: &mut B)
        requires
            !execute::<B>(run(*old(self), old(bus)@), Instruction::Plp).fault,
        ensures
            run(*final(self), final(bus)@) == execute::<B>(run(*old(self), old(bus)@), Instruction::Plp),
            final(self).cycles == old(self).cycles || final(self).cycles == old(self).cycles + 1,
    {
        proof {
            assert(execute::<B>(run(*old(self), old(bus)@), Instruction::Plp) == plp_effect::<B>(run(*old(self), old(bus)@))) by {
                reveal(execute);
            }
        }
        let status_byte = self.pop_u8(bus);
        self.p.from_byte(status_byte);
    }

    fn rol<B: Bus>(&mut self, bus: &mut B, addressing_mode: AddressingMode)
        requires
            !execute::<B>(run(*old(self), old(bus)@), Instruction::Rol(addressing_mode)).fault,
        ensures
            run(*final(self), final(bus)@) == execute::<B>(run(*old(self), old(bus)@), Instruction::Rol(addressing_mode)),
            final(self).cycles == old(self).cycles || final(self).cycles == old(self).cycles + 1,
    {
        proof {
            assert(execute::<B>(run(*old(self), old(bus)@), Instruction::Rol(addressing_mode)) == shift_effect::<B>(run(*old(self), old(bus)@), addressing_mode, Shift::Rol)) by {
                reveal(execute);
            }
        }
        let old_carry = self.p.carry as u8;
        if addressing_mode == AddressingMode::Accumulator {
            proof {
                lemma_byte_bits(self.a);
                lemma_byte_shifts(self.a, old_carry);
            }
            self.p.carry = (self.a & 0x80) != 0;
            self.a = (self.a << 1) | old_carry;
            self.update_zero_and_negative_flags(self.a);
        } else {
            let address = self.get_operand_address(bus, addressing_mode, true);
            let value = bus.read(address);
            proof {
                lemma_byte_bits(value);
                lemma_byte_shifts(value, old_carry);
            }
            self.p.carry = (value & 0x80) != 0;
            let result = (value << 1) | old_carry;
            self.update_zero_and_negative_flags(result);
            bus.write(address, result);
        }
    }

    fn ror<B: Bus>(&mut self, bus: &mut B, addressing_mode: AddressingMode)
        requires
            !execute::<B>(run(*old(self), old(bus)@), Instruction::Ror(addressing_mode)).fault,
        ensures
            run(*final(self), final(bus)@) == execute::<B>(run(*old(self), old(bus)@), Instruction::Ror(addressing_mode)),
            final(self).cycles == old(self).cycles || final(self).cycles == old(self).cycles + 1,
    {
        proof {
            assert(execute::<B>(run(*old(self), old(bus)@), Instruction::Ror(addressing_mode)) == shift_effect::<B>(run(*old(self), old(bus)@), addressing_mode, Shift::Ror)) by {
                reveal(execute);
            }
        }
        let old_carry = self.p.carry as u8;
        if addressing_mode == AddressingMode::Accumulator {
            proof {
                lemma_byte_bits(self.a);
                lemma_byte_shifts(self.a, old_carry);
            }
            self.p.carry = (self.a & 0x01) != 0;
            self.a = (self.a >> 1) | (old_carry << 7);
            self.update_zero_and_negative_flags(self.a);
        } else {
            let address = self.get_operand_address(bus, addressing_mode, true);
            let value = bus.read(address);
            proof {
                lemma_byte_bits(value);
                lemma_byte_shifts(value, old_carry);
            }
            self.p.carry = (value & 0x01) != 0;
            let result = (value >> 1) | (old_carry << 7);
            self.update_zero_and_negative_flags(result);
            bus.write(address, result);
        }
    }

    fn rra<B: Bus>(&mut self, bus: &mut B, addressing_mode: AddressingMode)
        requires
            !execute::<B>(run(*old(self), old(bus)@), Instruction::Rra(addressing_mode)).fault,
        ensures
            run(*final(self), final(bus)@) == execute::<B>(run(*old(self), old(bus)@), Instruction::Rra(addressing_mode)),
            final(self).cycles == old(self).cycles || final(self).cycles == old(self).cycles + 1,
    {
        proof {
            assert(execute::<B>(run(*old(self), old(bus)@), Instruction::Rra(addressing_mode)) == rra_effect::<B>(run(*old(self), old(bus)@), addressing_mode)) by {
                reveal(execute);
            }
        }
        let address = self.get_operand_address(bus, addressing_mode, true);
        let value = bus.read(address);
        proof {
            lemma_byte_bits(value);
        }
        let result_u16: u16 = (value >> 1) as u16;
        let result = (self.a as u16) + (result_u16) + (self.p.carry as u16);
        let old_a = self.a;
        self.a = self.update_carry_and_return_u8_result(result);
        self.update_zero_and_negative_flags(self.a);
        self.update_overflow(old_a, value, self.a);
    }

    fn rla<B: Bus>(&mut self, bus: &mut B, addressing_mode: AddressingMode)
        requires
            !execute::<B>(run(*old(self), old(bus)@), Instruction::Rla(addressing_mode)).fault,
        ensures
            run(*final(self), final(bus)@) == execute::<B>(run(*old(self), old(bus)@), Instruction::Rla(addressing_mode)),
            final(self).cycles == old(self).cycles || final(self).cycles == old(self).cycles + 1,
    {
        proof {
            assert(execute::<B>(run(*old(self), old(bus)@), Instruction::Rla(addressing_mode)) == rla_effect::<B>(run(*old(self), old(bus)@), addressing_mode)) by {
                reveal(execute);
            }
        }
        let address = self.get_operand_address(bus, addressing_mode, true);
        let value = bus.read(address);
        proof {
            lemma_byte_shifts(value, 0);
        }
        let mut result = value << 1;
        result = self.a & result;
        self.a = self.update_carry_and_return_u8_result(result as u16);
        self.update_zero_and_negative_flags(self.a);
    }

    fn sbc<B: Bus>(&mut self, bus: &mut B, addressing_mode: AddressingMode)
        requires
            !execute::<B>(run(*old(self), old(bus)@), Instruction::Sbc(addressing_mode)).fault,
        ensures
            run(*final(self), final(bus)@) == execute::<B>(run(*old(self), old(bus)@), Instruction::Sbc(addressing_mode)),
            final(self).cycles == old(self).cycles || final(self).cycles == old(self).cycles + 1,
    {
        proof {
            assert(execute::<B>(run(*old(self), old(bus)@), Instruction::Sbc(addressing_mode)) == sbc_effect::<B>(run(*old(self), old(bus)@), addressing_mode)) by {
                reveal(execute);
            }
        }
        let addr = self.get_operand_address(bus, addressing_mode, false);
        let value = bus.read(addr);
        proof {
            lemma_byte_complement(value);
        }
        let inverted_value = !value;
        let result = (self.a as u16) + (inverted_value as u16) + (self.p.carry as u16);
        let old_a = self.a;
        self.a = self.update_carry_and_return_u8_result(result);
        self.update_zero_and_negative_flags(self.a);
        proof {
            lemma_overflow_bits(old_a, inverted_value, self.a);
        }
        self.p.overflow = ((old_a ^ self.a) & (inverted_value ^ self.a) & 0x80) != 0;
    }

    fn adc<B: Bus>(&mut self, bus: &mut B, addressing_mode: AddressingMode)
        requires
            !execute::<B>(run(*old(self), old(bus)@), Instruction::Adc(addressing_mode)).fault,
        ensures
            run(*final(self), final(bus)@) == execute::<B>(run(*old(self), old(bus)@), Instruction::Adc(addressing_mode)),
            final(self).cycles == old(self).cycles || final(self).cycles == old(self).cycles + 1,
    {
        proof {
            assert(execute::<B>(run(*old(self), old(bus)@), Instruction::Adc(addressing_mode)) == adc_effect::<B>(run(*old(self), old(bus)@), addressing_mode)) by {
                reveal(execute);
            }
        }
        let addr = self.get_operand_address(bus, addressing_mode, false);
        let value = bus.read(addr);
        let result = (self.a as u16) + (value as u16) + (self.p.carry as u16);
        let old_a = self.a;
        self.a = self.update_carry_and_return_u8_result(result);
        self.update_zero_and_negative_flags(self.a);
        self.update_overflow(old_a, value, self.a);
    }

    fn asl<B: Bus>(&mut self, bus: &mut B, addressing_mode: AddressingMode)
        requires
            !execute::<B>(run(*old(self), old(bus)@), Instruction::Asl(addressing_mode)).fault,
        ensures
            run(*final(self), final(bus)@) == execute::<B>(run(*old(self), old(bus)@), Instruction::Asl(addressing_mode)),
            final(self).cycles == old(self).cycles || final(self).cycles == old(self).cycles + 1,
    {
        proof {
            assert(execute::<B>(run(*old(self), old(bus)@), Instruction::Asl(addressing_mode)) == shift_effect::<B>(run(*old(self), old(bus)@), addressing_mode, Shift::Asl)) by {
                reveal(execute);
            }
        }
        if addressing_mode == AddressingMode::Accumulator {
            proof {
                lemma_widened_shift(self.a as u16);
            }
            let result: u16 = (self.a as u16) << 1;
            self.a = self.update_carry_and_return_u8_result(result);
            self.update_zero_and_negative_flags(self.a);
        } else {
            let address = self.get_operand_address(bus, addressing_mode, true);
            let value = bus.read(address);
            proof {
                lemma_widened_shift(value as u16);
            }
            let result_u16: u16 = (value as u16) << 1;
            let result_u8 = self.update_carry_and_return_u8_result(result_u16);
            self.update_zero_and_negative_flags(result_u8);
            bus.write(address, result_u8);
        }
    }

    fn rti<B: Bus>(&mut self, bus: &mut B)
        requires
            !execute::<B>(run(*old(self), old(bus)@), Instruction::Rti).fault,
        ensures
            run(*final(self), final(bus)@) == execute::<B>(run(*old(self), old(bus)@), Instruction::Rti),
            final(self).cycles == old(self).cycles || final(self).cycles == old(self).cycles + 1,
    {
        proof {
            assert(execute::<B>(run(*old(self), old(bus)@), Instruction::Rti) == rti_effect::<B>(run(*old(self), old(bus)@))) by {
                reveal(execute);
            }
        }
        let status_byte = self.pop_u8(bus);
        self.p.from_byte(status_byte);
        self.pc = self.pop_u16(bus);
    }

    fn rts<B: Bus>(&mut self, bus: &mut B)
        requires
            !execute::<B>(run(*old(self), old(bus)@), Instruction::Rts).fault,
        ensures
            run(*final(self), final(bus)@) == execute::<B>(run(*old(self), old(bus)@), Instruction::Rts),
            final(self).cycles == old(self).cycles || final(self).cycles == old(self).cycles + 1,
    {
        proof {
            assert(execute::<B>(run(*old(self), old(bus)@), Instruction::Rts) == rts_effect::<B>(run(*old(self), old(bus)@))) by {
                reveal(execute);
            }
        }
        self.pc = self.pop_u16(bus).wrapping_add(1);
    }

    fn slo<B: Bus>(&mut self, bus: &mut B, addressing_mode: AddressingMode)
        requires
            !execute::<B>(run(*old(self), old(bus)@), Instruction::Slo(addressing_mode)).fault,
        ensures
            run(*final(self), final(bus)@) == execute::<B>(run(*old(self), old(bus)@), Instruction::Slo(addressing_mode)),
            final(self).cycles == old(self).cycles || final(self).cycles == old(self).cycles + 1,
    {
        proof {
            assert(execute::<B>(run(*old(self), old(bus)@), Instruction::Slo(addressing_mode)) == slo_effect::<B>(run(*old(self), old(bus)@), addressing_mode)) by {
                reveal(execute);
            }
        }
        let address = self.get_operand_address(bus, addressing_mode, true);
        let value = bus.read(address);
        proof {
            lemma_byte_shifts(value, 0);
        }
        let result_u16: u16 = (value << 1) as u16;
        let result_u8 = self.update_carry_and_return_u8_result(result_u16);
        self.update_zero_and_negative_flags(result_u8);
        bus.write(address, result_u8);
        self.a = self.a | result_u8;
        self.update_zero_and_negative_flags(self.a);
    }

    fn clv(&mut self)
        ensures
            *final(self) == implied_effect(*old(self), Instruction::Clv),
    {
        self.p.overflow = false;
    }

    fn clc(&mut self)
        ensures
            *final(self) == implied_effect(*old(self), Instruction::Clc),
    {
        self.p.carry = false;
    }

    fn cld(&mut self)
        ensures
            *final(self) == implied_effect(*old(self), Instruction::Cld),
    {
        self.p.decimal = false;
    }

    fn cli(&mut self)
        ensures
            *final(self) == implied_effect(*old(self), Instruction::Cli),
    {
        self.p.interrupt = false;
    }

    fn sec(&mut self)
        ensures
            *final(self) == implied_effect(*old(self), Instruction::Sec),
    {
        self.p.carry = true;
    }

    fn sed(&mut self)
        ensures
            *final(self) == implied_effect(*old(self), Instruction::Sed),
    {
        self.p.decimal = true;
    }

    fn sei(&mut self)
        ensures
            *final(self) == implied_effect(*old(self), Instruction::Sei),
    {
        self.p.interrupt = true;
    }

    fn nop(&mut self)
        ensures
            *final(self) == implied_effect(*old(self), Instruction::Nop),
    {
    }

    fn tax(&mut self)
        ensures
            *final(self) == implied_effect(*old(self), Instruction::Tax),
    {
        self.x = self.a;
        self.update_zero_and_negative_flags(self.x);
    }

    fn tay(&mut self)
        ensures
            *final(self) == implied_effect(*old(self), Instruction::Tay),
    {
        self.y = self.a;
        self.update_zero_and_negative_flags(self.y);
    }

    fn tsx(&mut self)
        ensures
            *final(self) == implied_effect(*old(self), Instruction::Tsx),
    {
        self.x = self.sp;
        self.update_zero_and_negative_flags(self.x);
    }

    fn tya(&mut self)
        ensures
            *final(self) == implied_effect(*old(self), Instruction::Tya),
    {
        self.a = self.y;
        self.update_zero_and_negative_flags(self.a);
    }

    fn txa(&mut self)
        ensures
            *final(self) == implied_effect(*old(self), Instruction::Txa),
    {
        self.a = self.x;
        self.update_zero_and_negative_flags(self.a);
    }

    fn txs(&mut self)
        ensures
            *final(self) == implied_effect(*old(self), Instruction::Txs),
    {
        self.sp = self.x;
    }

    fn dex(&mut self)
        ensures
            *final(self) == implied_effect(*old(self), Instruction::Dex),
    {
        self.x = self.x.wrapping_sub(1);
        self.update_zero_and_negative_flags(self.x);
    }

    fn dey(&mut self)
        ensures
            *final(self) == implied_effect(*old(self), Instruction::Dey),
    {
        self.y = self.y.wrapping_sub(1);
        self.update_zero_and_negative_flags(self.y);
    }

    fn inx(&mut self)
        ensures
            *final(self) == implied_effect(*old(self), Instruction::Inx),
    {
        self.x = self.x.wrapping_add(1);
        self.update_zero_and_negative_flags(self.x);
    }

    fn iny(&mut self)
        ensures
            *final(self) == implied_effect(*old(self), Instruction::Iny),
    {
        self.y = self.y.wrapping_add(1);
        self.update_zero_and_negative_flags(self.y);
    }

}

/// The bytes pushed for the status register are the status with the break and unused
/// bits forced.
pub proof fn lemma_pushed_status(p: ParsedBites)
    ensures
        status_byte(p) | 0x30 == pushed_status(p),
        (status_byte(p) & !0x10u8) | 0x20 == interrupt_status(p),
{
    lemma_status_masks(p.carry, p.zero, p.interrupt, p.decimal, p.break_command, p.unused, p.overflow, p.negative);
}

/// Packing the flags of a byte gives the byte back.
pub proof fn lemma_status_byte_of_flags(b: u8)
    ensures
        status_byte(status_flags(b)) == b,
{
    lemma_byte_from_bits(b);
}

/// Unpacking the byte of a status register gives the same flags back.
pub proof fn lemma_status_flags_of_byte(p: ParsedBites)
    ensures
        status_flags(status_byte(p)) == p,
{
    lemma_bits_of_byte(p.carry, p.zero, p.interrupt, p.decimal, p.break_command, p.unused, p.overflow, p.negative);
}

} // verus!
