//! What each instruction of the processor does, stated over the processor's registers and
//! the view of its bus.
use vstd::prelude::*;
use crate::bits::{wrap8, wrap16, word, low_byte, high_byte};
use crate::timing::OPCODES_CYCLES;
use crate::cpu::{Bus, Cpu, ParsedBites, AddressingMode, status_byte, status_flags, power_on_flags};

verus! {

/// A processor together with the view of its bus. `fault` records that the steps taken so
/// far include one the machine cannot take: a read or a write the bus does not define, or a
/// counter that would leave its range.
pub struct Run<M> {
    pub cpu: Cpu,
    pub bus: M,
    pub fault: bool,
}

pub open spec fn run<M>(cpu: Cpu, bus: M) -> Run<M> {
    Run { cpu, bus, fault: false }
}

pub open spec fn with_cpu<M>(r: Run<M>, cpu: Cpu) -> Run<M> {
    Run { cpu, ..r }
}

pub open spec fn fail_if<M>(r: Run<M>, bad: bool) -> Run<M> {
    Run { fault: r.fault || bad, ..r }
}

/// A bus read at `address`: the byte it gives and the run after it.
pub open spec fn read_at<B: Bus>(r: Run<B::V>, address: u16) -> (Run<B::V>, u8) {
    (
        Run { cpu: r.cpu, bus: B::after_read(r.bus, address), fault: r.fault || !B::readable(r.bus, address) },
        B::peek(r.bus, address),
    )
}

/// A bus write of `data` at `address`.
pub open spec fn write_at<B: Bus>(r: Run<B::V>, address: u16, data: u8) -> Run<B::V> {
    Run {
        cpu: r.cpu,
        bus: B::after_write(r.bus, address, data),
        fault: r.fault || !B::writable(r.bus, address, data),
    }
}

/// Adds `n` to the cycle counter, which must not overflow.
pub open spec fn add_cycles<M>(r: Run<M>, n: int) -> Run<M> {
    Run {
        cpu: Cpu { cycles: (r.cpu.cycles + n) as u64, ..r.cpu },
        bus: r.bus,
        fault: r.fault || r.cpu.cycles + n > u64::MAX,
    }
}

/// Zero and negative flags set from `v`.
pub open spec fn zn(p: ParsedBites, v: u8) -> ParsedBites {
    ParsedBites { zero: v == 0, negative: v >= 128, ..p }
}

pub open spec fn set_nz(c: Cpu, v: u8) -> Cpu {
    Cpu { p: zn(c.p, v), ..c }
}

/// Whether two addresses lie on different 256-byte pages.
pub open spec fn page_crossed(a: u16, b: u16) -> bool {
    a / 256 != b / 256
}

/// The byte at the program counter; the program counter moves on by one.
pub open spec fn fetch_byte<B: Bus>(r: Run<B::V>) -> (Run<B::V>, u8) {
    let (r1, v) = read_at::<B>(r, r.cpu.pc);
    (with_cpu(r1, Cpu { pc: wrap16(r.cpu.pc + 1), ..r1.cpu }), v)
}

/// The little-endian word at the program counter; the program counter moves on by two.
pub open spec fn fetch_word<B: Bus>(r: Run<B::V>) -> (Run<B::V>, u16) {
    let (r1, lo) = read_at::<B>(r, r.cpu.pc);
    let (r2, hi) = read_at::<B>(r1, wrap16(r.cpu.pc + 1));
    (with_cpu(r2, Cpu { pc: wrap16(r.cpu.pc + 2), ..r2.cpu }), word(hi, lo))
}

/// Adds a cycle when indexing crosses a page, except for the read-modify-write instructions.
pub open spec fn page_penalty<M>(r: Run<M>, base: u16, target: u16, is_write: bool) -> Run<M> {
    if is_write {
        r
    } else {
        add_cycles(r, if page_crossed(base, target) { 1 } else { 0 })
    }
}

/// An absolute address from the instruction plus an index register.
pub open spec fn absolute_indexed<B: Bus>(r: Run<B::V>, index: u8, is_write: bool) -> (Run<B::V>, u16) {
    let (r1, base) = fetch_word::<B>(r);
    let target = wrap16(base + index);
    (page_penalty(r1, base, target, is_write), target)
}

/// A pointer on the zero page, plus the Y register.
pub open spec fn indirect_indexed<B: Bus>(r: Run<B::V>, is_write: bool) -> (Run<B::V>, u16) {
    let (r1, z) = fetch_byte::<B>(r);
    let (r2, lo) = read_at::<B>(r1, z as u16);
    let (r3, hi) = read_at::<B>(r2, wrap8(z + 1) as u16);
    let base = word(hi, lo);
    let target = wrap16(base + r.cpu.y);
    (page_penalty(r3, base, target, is_write), target)
}

/// A pointer on the zero page found at the instruction's byte plus the X register.
pub open spec fn indexed_indirect<B: Bus>(r: Run<B::V>) -> (Run<B::V>, u16) {
    let (r1, z) = fetch_byte::<B>(r);
    let ptr = wrap8(z + r.cpu.x);
    let (r2, lo) = read_at::<B>(r1, ptr as u16);
    let (r3, hi) = read_at::<B>(r2, wrap8(ptr + 1) as u16);
    (r3, word(hi, lo))
}

/// A pointer anywhere in memory. The high byte comes from the start of the same page
/// when the pointer sits on a page's last byte.
pub open spec fn indirect<B: Bus>(r: Run<B::V>) -> (Run<B::V>, u16) {
    let (r1, base) = fetch_word::<B>(r);
    let (r2, lo) = read_at::<B>(r1, base);
    let hi_address = if base % 256 == 255 { (base - 255) as u16 } else { wrap16(base + 1) };
    let (r3, hi) = read_at::<B>(r2, hi_address);
    (r3, word(hi, lo))
}

/// The address an instruction operates on, with the reads and the program counter
/// movement that finding it takes.
#[verifier::opaque]
pub open spec fn operand<B: Bus>(r: Run<B::V>, mode: AddressingMode, is_write: bool) -> (Run<B::V>, u16) {
    match mode {
        AddressingMode::Immediate => (
            fail_if(with_cpu(r, Cpu { pc: (r.cpu.pc + 1) as u16, ..r.cpu }), r.cpu.pc == 0xFFFF),
            r.cpu.pc,
        ),
        AddressingMode::ZeroPage => {
            let (r1, z) = fetch_byte::<B>(r);
            (r1, z as u16)
        },
        AddressingMode::ZeroPageX => {
            let (r1, z) = fetch_byte::<B>(r);
            (r1, wrap8(z + r.cpu.x) as u16)
        },
        AddressingMode::ZeroPageY => {
            let (r1, z) = fetch_byte::<B>(r);
            (r1, wrap8(z + r.cpu.y) as u16)
        },
        AddressingMode::Absolute => fetch_word::<B>(r),
        AddressingMode::AbsoluteX => absolute_indexed::<B>(r, r.cpu.x, is_write),
        AddressingMode::AbsoluteY => absolute_indexed::<B>(r, r.cpu.y, is_write),
        AddressingMode::IndirectY => indirect_indexed::<B>(r, is_write),
        AddressingMode::IndirectX => indexed_indirect::<B>(r),
        AddressingMode::Indirect => indirect::<B>(r),
        AddressingMode::Accumulator => (r, 0),
    }
}

/// The byte an instruction reads as its operand.
pub open spec fn load_operand<B: Bus>(r: Run<B::V>, mode: AddressingMode) -> (Run<B::V>, u8) {
    let (r1, address) = operand::<B>(r, mode, false);
    read_at::<B>(r1, address)
}

/// The stack lives on page one.
pub open spec fn stack_address(sp: u8) -> u16 {
    (0x100 + sp) as u16
}

pub open spec fn push_byte<B: Bus>(r: Run<B::V>, v: u8) -> Run<B::V> {
    let r1 = write_at::<B>(r, stack_address(r.cpu.sp), v);
    with_cpu(r1, Cpu { sp: wrap8(r.cpu.sp - 1), ..r1.cpu })
}

/// Pushes the high byte first, so that the low byte ends on top.
pub open spec fn push_word<B: Bus>(r: Run<B::V>, v: u16) -> Run<B::V> {
    push_byte::<B>(push_byte::<B>(r, high_byte(v)), low_byte(v))
}

pub open spec fn pop_byte<B: Bus>(r: Run<B::V>) -> (Run<B::V>, u8) {
    let sp = wrap8(r.cpu.sp + 1);
    read_at::<B>(with_cpu(r, Cpu { sp, ..r.cpu }), stack_address(sp))
}

pub open spec fn pop_word<B: Bus>(r: Run<B::V>) -> (Run<B::V>, u16) {
    let (r1, lo) = pop_byte::<B>(r);
    let (r2, hi) = pop_byte::<B>(r1);
    (r2, word(hi, lo))
}

/// The status byte that `PHP` and `BRK` push: break and unused bits set.
pub open spec fn pushed_status(p: ParsedBites) -> u8 {
    status_byte(ParsedBites { break_command: true, unused: true, ..p })
}

/// The status byte that a non-maskable interrupt pushes: break clear, unused set.
pub open spec fn interrupt_status(p: ParsedBites) -> u8 {
    status_byte(ParsedBites { break_command: false, unused: true, ..p })
}

/// Signed overflow of an addition `a + v` that gave `result`: both operands have the
/// same sign and the result has the other one.
pub open spec fn overflowed(a: u8, v: u8, result: u8) -> bool {
    (a >= 128) == (v >= 128) && (result >= 128) != (a >= 128)
}

/// Adds `v` and the carry to the accumulator; the overflow flag is judged against `ov`.
pub open spec fn add_to_a(c: Cpu, v: u8, ov: u8) -> Cpu {
    let sum = c.a + v + (if c.p.carry { 1int } else { 0 });
    let result = wrap8(sum);
    Cpu {
        a: result,
        p: ParsedBites { carry: sum > 255, zero: result == 0, negative: result >= 128, overflow: overflowed(c.a, ov, result), ..c.p },
        ..c
    }
}

/// Compares a register with `v`.
pub open spec fn compare(c: Cpu, reg: u8, v: u8) -> Cpu {
    Cpu { p: zn(ParsedBites { carry: reg >= v, ..c.p }, wrap8(reg - v)), ..c }
}

/// Loads a register with the operand: `LDA`, `LDX`, `LDY` put the result in `A`, `X`, `Y`.
pub open spec fn load_effect<B: Bus>(r: Run<B::V>, mode: AddressingMode, reg: Register) -> Run<B::V> {
    let (r1, v) = load_operand::<B>(r, mode);
    with_cpu(r1, set_nz(set_register(r1.cpu, reg, v), v))
}

/// Stores a register at the operand address.
pub open spec fn store_effect<B: Bus>(r: Run<B::V>, mode: AddressingMode, reg: Register) -> Run<B::V> {
    let (r1, address) = operand::<B>(r, mode, false);
    write_at::<B>(r1, address, get_register(r1.cpu, reg))
}

/// The three data registers.
#[derive(PartialEq, Eq, Structural, Clone, Copy, Debug)]
pub enum Register {
    A,
    X,
    Y,
}

pub open spec fn get_register(c: Cpu, reg: Register) -> u8 {
    match reg {
        Register::A => c.a,
        Register::X => c.x,
        Register::Y => c.y,
    }
}

pub open spec fn set_register(c: Cpu, reg: Register, v: u8) -> Cpu {
    match reg {
        Register::A => Cpu { a: v, ..c },
        Register::X => Cpu { x: v, ..c },
        Register::Y => Cpu { y: v, ..c },
    }
}

/// The bitwise operations on the accumulator.
#[derive(PartialEq, Eq, Structural, Clone, Copy, Debug)]
pub enum Logic {
    And,
    Or,
    Xor,
}

pub open spec fn logic_result(op: Logic, a: u8, v: u8) -> u8 {
    match op {
        Logic::And => a & v,
        Logic::Or => a | v,
        Logic::Xor => a ^ v,
    }
}

/// `AND`, `ORA`, `EOR`: the accumulator combined with the operand.
pub open spec fn logic_effect<B: Bus>(r: Run<B::V>, mode: AddressingMode, op: Logic) -> Run<B::V> {
    let (r1, v) = load_operand::<B>(r, mode);
    let result = logic_result(op, r1.cpu.a, v);
    with_cpu(r1, set_nz(Cpu { a: result, ..r1.cpu }, result))
}

/// `ADC`: adds the operand and the carry to the accumulator.
pub open spec fn adc_effect<B: Bus>(r: Run<B::V>, mode: AddressingMode) -> Run<B::V> {
    let (r1, v) = load_operand::<B>(r, mode);
    with_cpu(r1, add_to_a(r1.cpu, v, v))
}

/// `SBC`: adds the complement of the operand and the carry to the accumulator.
pub open spec fn sbc_effect<B: Bus>(r: Run<B::V>, mode: AddressingMode) -> Run<B::V> {
    let (r1, v) = load_operand::<B>(r, mode);
    with_cpu(r1, add_to_a(r1.cpu, (255 - v) as u8, (255 - v) as u8))
}

/// `CMP`, `CPX`, `CPY`: compares a register with the operand.
pub open spec fn compare_effect<B: Bus>(r: Run<B::V>, mode: AddressingMode, reg: Register) -> Run<B::V> {
    let (r1, v) = load_operand::<B>(r, mode);
    with_cpu(r1, compare(r1.cpu, get_register(r1.cpu, reg), v))
}

/// `BIT`: zero from the accumulator masked by the operand, negative and overflow from the
/// operand's bits 7 and 6.
pub open spec fn bit_effect<B: Bus>(r: Run<B::V>, mode: AddressingMode) -> Run<B::V> {
    let (r1, v) = load_operand::<B>(r, mode);
    with_cpu(r1, Cpu {
        p: ParsedBites { zero: r1.cpu.a & v == 0, negative: v >= 128, overflow: (v / 64) % 2 == 1, ..r1.cpu.p },
        ..r1.cpu
    })
}

/// `INC` and `DEC`: adds `delta` (1 or -1) to a byte in memory.
pub open spec fn step_memory_effect<B: Bus>(r: Run<B::V>, mode: AddressingMode, delta: int) -> Run<B::V> {
    let (r1, address) = operand::<B>(r, mode, true);
    let (r2, v) = read_at::<B>(r1, address);
    let result = wrap8(v + delta);
    with_cpu(write_at::<B>(r2, address, result), set_nz(r2.cpu, result))
}

/// `INX`, `INY`, `DEX`, `DEY`: adds `delta` to an index register.
pub open spec fn step_register(c: Cpu, reg: Register, delta: int) -> Cpu {
    let result = wrap8(get_register(c, reg) + delta);
    set_nz(set_register(c, reg, result), result)
}

/// The four shifts and rotations.
#[derive(PartialEq, Eq, Structural, Clone, Copy, Debug)]
pub enum Shift {
    Asl,
    Lsr,
    Rol,
    Ror,
}

/// The shifted byte and the new carry.
pub open spec fn shift_result(op: Shift, v: u8, carry: bool) -> (u8, bool) {
    let c: int = if carry { 1 } else { 0 };
    match op {
        Shift::Asl => (wrap8(v * 2), v >= 128),
        Shift::Lsr => ((v / 2) as u8, v % 2 == 1),
        Shift::Rol => (wrap8(v * 2 + c), v >= 128),
        Shift::Ror => ((v / 2 + c * 128) as u8, v % 2 == 1),
    }
}

/// `ASL`, `LSR`, `ROL`, `ROR`, on the accumulator or on a byte in memory.
pub open spec fn shift_effect<B: Bus>(r: Run<B::V>, mode: AddressingMode, op: Shift) -> Run<B::V> {
    if mode == AddressingMode::Accumulator {
        let (result, carry) = shift_result(op, r.cpu.a, r.cpu.p.carry);
        with_cpu(r, Cpu { a: result, p: zn(ParsedBites { carry, ..r.cpu.p }, result), ..r.cpu })
    } else {
        let (r1, address) = operand::<B>(r, mode, true);
        let (r2, v) = read_at::<B>(r1, address);
        let (result, carry) = shift_result(op, v, r.cpu.p.carry);
        with_cpu(
            write_at::<B>(r2, address, result),
            Cpu { p: zn(ParsedBites { carry, ..r2.cpu.p }, result), ..r2.cpu },
        )
    }
}

/// `ISB`: increments a byte in memory, then subtracts it from the accumulator.
pub open spec fn isb_effect<B: Bus>(r: Run<B::V>, mode: AddressingMode) -> Run<B::V> {
    let (r1, address) = operand::<B>(r, mode, false);
    let (r2, v) = read_at::<B>(r1, address);
    let incremented = wrap8(v + 1);
    let r3 = write_at::<B>(r2, address, incremented);
    with_cpu(r3, add_to_a(r3.cpu, (255 - incremented) as u8, (255 - incremented) as u8))
}

/// `SLO`: shifts a byte in memory left (within eight bits, so the carry ends clear), then
/// ors it into the accumulator.
pub open spec fn slo_effect<B: Bus>(r: Run<B::V>, mode: AddressingMode) -> Run<B::V> {
    let (r1, address) = operand::<B>(r, mode, true);
    let (r2, v) = read_at::<B>(r1, address);
    let shifted = wrap8(v * 2);
    let a = r2.cpu.a | shifted;
    with_cpu(
        write_at::<B>(r2, address, shifted),
        Cpu { a, p: zn(ParsedBites { carry: false, ..r2.cpu.p }, a), ..r2.cpu },
    )
}

/// `RRA`: adds half the operand and the carry to the accumulator; the overflow flag is
/// judged against the operand itself and memory is left as it was.
pub open spec fn rra_effect<B: Bus>(r: Run<B::V>, mode: AddressingMode) -> Run<B::V> {
    let (r1, address) = operand::<B>(r, mode, true);
    let (r2, v) = read_at::<B>(r1, address);
    with_cpu(r2, add_to_a(r2.cpu, (v / 2) as u8, v))
}

/// `RLA`: the accumulator anded with the operand shifted left within eight bits; the carry
/// ends clear and memory is left as it was.
pub open spec fn rla_effect<B: Bus>(r: Run<B::V>, mode: AddressingMode) -> Run<B::V> {
    let (r1, address) = operand::<B>(r, mode, true);
    let (r2, v) = read_at::<B>(r1, address);
    let a = r2.cpu.a & wrap8(v * 2);
    with_cpu(r2, Cpu { a, p: zn(ParsedBites { carry: false, ..r2.cpu.p }, a), ..r2.cpu })
}

/// A relative branch: the offset byte is always consumed; when `condition` holds the program
/// counter moves by the offset read as a signed byte.
pub open spec fn branch_effect<B: Bus>(r: Run<B::V>, condition: bool) -> Run<B::V> {
    let (r1, offset) = fetch_byte::<B>(r);
    if condition {
        let signed: int = if offset >= 128 { offset - 256 } else { offset as int };
        with_cpu(r1, Cpu { pc: wrap16(r1.cpu.pc + signed), ..r1.cpu })
    } else {
        r1
    }
}

/// `JMP`: the program counter takes the operand address.
pub open spec fn jmp_effect<B: Bus>(r: Run<B::V>, mode: AddressingMode) -> Run<B::V> {
    let (r1, address) = operand::<B>(r, mode, false);
    with_cpu(r1, Cpu { pc: address, ..r1.cpu })
}

/// `JSR`: pushes the address of the instruction's last byte, then jumps.
pub open spec fn jsr_effect<B: Bus>(r: Run<B::V>, mode: AddressingMode) -> Run<B::V> {
    let (r1, address) = operand::<B>(r, mode, false);
    let r2 = push_word::<B>(r1, wrap16(r1.cpu.pc - 1));
    with_cpu(r2, Cpu { pc: address, ..r2.cpu })
}

/// `RTS`: pops an address and continues after it.
pub open spec fn rts_effect<B: Bus>(r: Run<B::V>) -> Run<B::V> {
    let (r1, address) = pop_word::<B>(r);
    with_cpu(r1, Cpu { pc: wrap16(address + 1), ..r1.cpu })
}

/// `RTI`: pops the status register, then the program counter.
pub open spec fn rti_effect<B: Bus>(r: Run<B::V>) -> Run<B::V> {
    let (r1, status) = pop_byte::<B>(r);
    let r2 = with_cpu(r1, Cpu { p: status_flags(status), ..r1.cpu });
    let (r3, address) = pop_word::<B>(r2);
    with_cpu(r3, Cpu { pc: address, ..r3.cpu })
}

/// `BRK`: skips a padding byte, pushes the return address and the status (break set),
/// disables interrupts and jumps through the vector at 0xFFFE.
pub open spec fn brk_effect<B: Bus>(r: Run<B::V>) -> Run<B::V> {
    let pc = wrap16(r.cpu.pc + 1);
    let r1 = push_word::<B>(with_cpu(r, Cpu { pc, ..r.cpu }), pc);
    let r2 = push_byte::<B>(r1, pushed_status(r.cpu.p));
    let r3 = with_cpu(r2, Cpu { p: ParsedBites { interrupt: true, ..r2.cpu.p }, ..r2.cpu });
    let (r4, lo) = read_at::<B>(r3, 0xFFFE);
    let (r5, hi) = read_at::<B>(r4, 0xFFFF);
    with_cpu(r5, Cpu { pc: word(hi, lo), ..r5.cpu })
}

/// `PLA`: pops the accumulator.
pub open spec fn pla_effect<B: Bus>(r: Run<B::V>) -> Run<B::V> {
    let (r1, v) = pop_byte::<B>(r);
    with_cpu(r1, set_nz(Cpu { a: v, ..r1.cpu }, v))
}

/// `PLP`: pops the status register.
pub open spec fn plp_effect<B: Bus>(r: Run<B::V>) -> Run<B::V> {
    let (r1, v) = pop_byte::<B>(r);
    with_cpu(r1, Cpu { p: status_flags(v), ..r1.cpu })
}

/// The non-maskable interrupt: pushes the program counter and the status (break clear),
/// disables interrupts, jumps through the vector at 0xFFFA and takes seven cycles.
pub open spec fn nmi_effect<B: Bus>(r: Run<B::V>) -> Run<B::V> {
    let r1 = push_word::<B>(r, r.cpu.pc);
    let r2 = push_byte::<B>(r1, interrupt_status(r.cpu.p));
    let r3 = with_cpu(r2, Cpu { p: ParsedBites { interrupt: true, ..r2.cpu.p }, ..r2.cpu });
    let (r4, hi) = read_at::<B>(r3, 0xFFFB);
    let (r5, lo) = read_at::<B>(r4, 0xFFFA);
    add_cycles(with_cpu(r5, Cpu { pc: word(hi, lo), ..r5.cpu }), 7)
}

/// Reset: the program counter from the vector at 0xFFFC, everything else to its power-on value.
pub open spec fn reset_effect<B: Bus>(r: Run<B::V>) -> Run<B::V> {
    let (r1, hi) = read_at::<B>(r, 0xFFFD);
    let (r2, lo) = read_at::<B>(r1, 0xFFFC);
    with_cpu(r2, Cpu { pc: word(hi, lo), sp: 0xFD, a: 0, x: 0, y: 0, p: power_on_flags(), cycles: 0 })
}

/// The instructions the processor knows, with their addressing modes.
#[derive(PartialEq, Eq, Structural, Clone, Copy, Debug)]
pub enum Instruction {
    Brk, Nop, Clc, Sec, Cli, Sei, Clv, Cld, Sed, Rti,
    Bpl, Bmi, Bvc, Bvs, Bcc, Bcs, Bne, Beq,
    Jmp(AddressingMode), Jsr(AddressingMode), Rts,
    Pha, Php, Pla, Plp,
    Lda(AddressingMode), Ldx(AddressingMode), Ldy(AddressingMode),
    Sta(AddressingMode), Stx(AddressingMode), Sty(AddressingMode),
    Tax, Txa, Tay, Tya, Tsx, Txs,
    Adc(AddressingMode), Sbc(AddressingMode),
    Dec(AddressingMode), Inc(AddressingMode),
    Isb(AddressingMode), Slo(AddressingMode), Rra(AddressingMode), Rla(AddressingMode),
    Dex, Dey, Inx, Iny,
    And(AddressingMode), Ora(AddressingMode), Eor(AddressingMode),
    Cmp(AddressingMode), Cpx(AddressingMode), Cpy(AddressingMode),
    Asl(AddressingMode), Lsr(AddressingMode), Rol(AddressingMode), Ror(AddressingMode),
    Bit(AddressingMode),
}

/// The instruction an opcode stands for; `None` for opcodes the processor does not know,
/// which it executes as no operation.
pub open spec fn decode(opcode: u8) -> Option<Instruction> {
    match opcode {
        0x00 => Some(Instruction::Brk),
        0xEA => Some(Instruction::Nop),
        0x18 => Some(Instruction::Clc),
        0x38 => Some(Instruction::Sec),
        0x58 => Some(Instruction::Cli),
        0x78 => Some(Instruction::Sei),
        0xB8 => Some(Instruction::Clv),
        0xD8 => Some(Instruction::Cld),
        0xF8 => Some(Instruction::Sed),
        0x40 => Some(Instruction::Rti),
        0x10 => Some(Instruction::Bpl),
        0x30 => Some(Instruction::Bmi),
        0x50 => Some(Instruction::Bvc),
        0x70 => Some(Instruction::Bvs),
        0x90 => Some(Instruction::Bcc),
        0xB0 => Some(Instruction::Bcs),
        0xD0 => Some(Instruction::Bne),
        0xF0 => Some(Instruction::Beq),
        0x4C => Some(Instruction::Jmp(AddressingMode::Absolute)),
        0x6C => Some(Instruction::Jmp(AddressingMode::Indirect)),
        0x20 => Some(Instruction::Jsr(AddressingMode::Absolute)),
        0x60 => Some(Instruction::Rts),
        0x48 => Some(Instruction::Pha),
        0x08 => Some(Instruction::Php),
        0x68 => Some(Instruction::Pla),
        0x28 => Some(Instruction::Plp),
        0xA9 => Some(Instruction::Lda(AddressingMode::Immediate)),
        0xA5 => Some(Instruction::Lda(AddressingMode::ZeroPage)),
        0xB5 => Some(Instruction::Lda(AddressingMode::ZeroPageX)),
        0xAD => Some(Instruction::Lda(AddressingMode::Absolute)),
        0xBD => Some(Instruction::Lda(AddressingMode::AbsoluteX)),
        0xB9 => Some(Instruction::Lda(AddressingMode::AbsoluteY)),
        0xA1 => Some(Instruction::Lda(AddressingMode::IndirectX)),
        0xB1 => Some(Instruction::Lda(AddressingMode::IndirectY)),
        0xA2 => Some(Instruction::Ldx(AddressingMode::Immediate)),
        0xA6 => Some(Instruction::Ldx(AddressingMode::ZeroPage)),
        0xB6 => Some(Instruction::Ldx(AddressingMode::ZeroPageY)),
        0xAE => Some(Instruction::Ldx(AddressingMode::Absolute)),
        0xBE => Some(Instruction::Ldx(AddressingMode::AbsoluteY)),
        0xA0 => Some(Instruction::Ldy(AddressingMode::Immediate)),
        0xA4 => Some(Instruction::Ldy(AddressingMode::ZeroPage)),
        0xB4 => Some(Instruction::Ldy(AddressingMode::ZeroPageX)),
        0xAC => Some(Instruction::Ldy(AddressingMode::Absolute)),
        0xBC => Some(Instruction::Ldy(AddressingMode::AbsoluteX)),
        0x85 => Some(Instruction::Sta(AddressingMode::ZeroPage)),
        0x95 => Some(Instruction::Sta(AddressingMode::ZeroPageX)),
        0x8D => Some(Instruction::Sta(AddressingMode::Absolute)),
        0x9D => Some(Instruction::Sta(AddressingMode::AbsoluteX)),
        0x99 => Some(Instruction::Sta(AddressingMode::AbsoluteY)),
        0x81 => Some(Instruction::Sta(AddressingMode::IndirectX)),
        0x91 => Some(Instruction::Sta(AddressingMode::IndirectY)),
        0x86 => Some(Instruction::Stx(AddressingMode::ZeroPage)),
        0x96 => Some(Instruction::Stx(AddressingMode::ZeroPageY)),
        0x8E => Some(Instruction::Stx(AddressingMode::Absolute)),
        0x84 => Some(Instruction::Sty(AddressingMode::ZeroPage)),
        0x94 => Some(Instruction::Sty(AddressingMode::ZeroPageX)),
        0x8C => Some(Instruction::Sty(AddressingMode::Absolute)),
        0xAA => Some(Instruction::Tax),
        0x8A => Some(Instruction::Txa),
        0xA8 => Some(Instruction::Tay),
        0x98 => Some(Instruction::Tya),
        0xBA => Some(Instruction::Tsx),
        0x9A => Some(Instruction::Txs),
        0x69 => Some(Instruction::Adc(AddressingMode::Immediate)),
        0x65 => Some(Instruction::Adc(AddressingMode::ZeroPage)),
        0x75 => Some(Instruction::Adc(AddressingMode::ZeroPageX)),
        0x6D => Some(Instruction::Adc(AddressingMode::Absolute)),
        0x7D => Some(Instruction::Adc(AddressingMode::AbsoluteX)),
        0x79 => Some(Instruction::Adc(AddressingMode::AbsoluteY)),
        0x61 => Some(Instruction::Adc(AddressingMode::IndirectX)),
        0x71 => Some(Instruction::Adc(AddressingMode::IndirectY)),
        0xE9 => Some(Instruction::Sbc(AddressingMode::Immediate)),
        0xE5 => Some(Instruction::Sbc(AddressingMode::ZeroPage)),
        0xF5 => Some(Instruction::Sbc(AddressingMode::ZeroPageX)),
        0xED => Some(Instruction::Sbc(AddressingMode::Absolute)),
        0xFD => Some(Instruction::Sbc(AddressingMode::AbsoluteX)),
        0xF9 => Some(Instruction::Sbc(AddressingMode::AbsoluteY)),
        0xE1 => Some(Instruction::Sbc(AddressingMode::IndirectX)),
        0xF1 => Some(Instruction::Sbc(AddressingMode::IndirectY)),
        0xC6 => Some(Instruction::Dec(AddressingMode::ZeroPage)),
        0xD6 => Some(Instruction::Dec(AddressingMode::ZeroPageX)),
        0xCE => Some(Instruction::Dec(AddressingMode::Absolute)),
        0xDE => Some(Instruction::Dec(AddressingMode::AbsoluteX)),
        0xE6 => Some(Instruction::Inc(AddressingMode::ZeroPage)),
        0xF6 => Some(Instruction::Inc(AddressingMode::ZeroPageX)),
        0xEE => Some(Instruction::Inc(AddressingMode::Absolute)),
        0xFE => Some(Instruction::Inc(AddressingMode::AbsoluteX)),
        0xE7 => Some(Instruction::Isb(AddressingMode::ZeroPage)),
        0xF7 => Some(Instruction::Isb(AddressingMode::ZeroPageX)),
        0xEF => Some(Instruction::Isb(AddressingMode::Absolute)),
        0xFF => Some(Instruction::Isb(AddressingMode::AbsoluteX)),
        0xFB => Some(Instruction::Isb(AddressingMode::AbsoluteY)),
        0xE3 => Some(Instruction::Isb(AddressingMode::IndirectX)),
        0xF3 => Some(Instruction::Isb(AddressingMode::IndirectY)),
        0x07 => Some(Instruction::Slo(AddressingMode::ZeroPage)),
        0x17 => Some(Instruction::Slo(AddressingMode::ZeroPageX)),
        0x0F => Some(Instruction::Slo(AddressingMode::Absolute)),
        0x1F => Some(Instruction::Slo(AddressingMode::AbsoluteX)),
        0x1B => Some(Instruction::Slo(AddressingMode::AbsoluteY)),
        0x03 => Some(Instruction::Slo(AddressingMode::IndirectX)),
        0x13 => Some(Instruction::Slo(AddressingMode::IndirectY)),
        0x67 => Some(Instruction::Rra(AddressingMode::ZeroPage)),
        0x77 => Some(Instruction::Rra(AddressingMode::ZeroPageX)),
        0x6F => Some(Instruction::Rra(AddressingMode::Absolute)),
        0x7F => Some(Instruction::Rra(AddressingMode::AbsoluteX)),
        0x7B => Some(Instruction::Rra(AddressingMode::AbsoluteY)),
        0x63 => Some(Instruction::Rra(AddressingMode::IndirectX)),
        0x73 => Some(Instruction::Rra(AddressingMode::IndirectY)),
        0x27 => Some(Instruction::Rla(AddressingMode::ZeroPage)),
        0x37 => Some(Instruction::Rla(AddressingMode::ZeroPageX)),
        0x2F => Some(Instruction::Rla(AddressingMode::Absolute)),
        0x3F => Some(Instruction::Rla(AddressingMode::AbsoluteX)),
        0x3B => Some(Instruction::Rla(AddressingMode::AbsoluteY)),
        0x23 => Some(Instruction::Rla(AddressingMode::IndirectX)),
        0x33 => Some(Instruction::Rla(AddressingMode::IndirectY)),
        0xCA => Some(Instruction::Dex),
        0x88 => Some(Instruction::Dey),
        0xE8 => Some(Instruction::Inx),
        0xC8 => Some(Instruction::Iny),
        0x29 => Some(Instruction::And(AddressingMode::Immediate)),
        0x25 => Some(Instruction::And(AddressingMode::ZeroPage)),
        0x35 => Some(Instruction::And(AddressingMode::ZeroPageX)),
        0x2D => Some(Instruction::And(AddressingMode::Absolute)),
        0x3D => Some(Instruction::And(AddressingMode::AbsoluteX)),
        0x39 => Some(Instruction::And(AddressingMode::AbsoluteY)),
        0x21 => Some(Instruction::And(AddressingMode::IndirectX)),
        0x31 => Some(Instruction::And(AddressingMode::IndirectY)),
        0x09 => Some(Instruction::Ora(AddressingMode::Immediate)),
        0x05 => Some(Instruction::Ora(AddressingMode::ZeroPage)),
        0x15 => Some(Instruction::Ora(AddressingMode::ZeroPageX)),
        0x0D => Some(Instruction::Ora(AddressingMode::Absolute)),
        0x1D => Some(Instruction::Ora(AddressingMode::AbsoluteX)),
        0x19 => Some(Instruction::Ora(AddressingMode::AbsoluteY)),
        0x01 => Some(Instruction::Ora(AddressingMode::IndirectX)),
        0x11 => Some(Instruction::Ora(AddressingMode::IndirectY)),
        0x49 => Some(Instruction::Eor(AddressingMode::Immediate)),
        0x45 => Some(Instruction::Eor(AddressingMode::ZeroPage)),
        0x55 => Some(Instruction::Eor(AddressingMode::ZeroPageX)),
        0x4D => Some(Instruction::Eor(AddressingMode::Absolute)),
        0x5D => Some(Instruction::Eor(AddressingMode::AbsoluteX)),
        0x59 => Some(Instruction::Eor(AddressingMode::AbsoluteY)),
        0x41 => Some(Instruction::Eor(AddressingMode::IndirectX)),
        0x51 => Some(Instruction::Eor(AddressingMode::IndirectY)),
        0xC9 => Some(Instruction::Cmp(AddressingMode::Immediate)),
        0xC5 => Some(Instruction::Cmp(AddressingMode::ZeroPage)),
        0xD5 => Some(Instruction::Cmp(AddressingMode::ZeroPageX)),
        0xCD => Some(Instruction::Cmp(AddressingMode::Absolute)),
        0xDD => Some(Instruction::Cmp(AddressingMode::AbsoluteX)),
        0xD9 => Some(Instruction::Cmp(AddressingMode::AbsoluteY)),
        0xC1 => Some(Instruction::Cmp(AddressingMode::IndirectX)),
        0xD1 => Some(Instruction::Cmp(AddressingMode::IndirectY)),
        0xE0 => Some(Instruction::Cpx(AddressingMode::Immediate)),
        0xE4 => Some(Instruction::Cpx(AddressingMode::ZeroPage)),
        0xEC => Some(Instruction::Cpx(AddressingMode::Absolute)),
        0xC0 => Some(Instruction::Cpy(AddressingMode::Immediate)),
        0xC4 => Some(Instruction::Cpy(AddressingMode::ZeroPage)),
        0xCC => Some(Instruction::Cpy(AddressingMode::Absolute)),
        0x0A => Some(Instruction::Asl(AddressingMode::Accumulator)),
        0x06 => Some(Instruction::Asl(AddressingMode::ZeroPage)),
        0x16 => Some(Instruction::Asl(AddressingMode::ZeroPageX)),
        0x0E => Some(Instruction::Asl(AddressingMode::Absolute)),
        0x1E => Some(Instruction::Asl(AddressingMode::AbsoluteX)),
        0x4A => Some(Instruction::Lsr(AddressingMode::Accumulator)),
        0x46 => Some(Instruction::Lsr(AddressingMode::ZeroPage)),
        0x56 => Some(Instruction::Lsr(AddressingMode::ZeroPageX)),
        0x4E => Some(Instruction::Lsr(AddressingMode::Absolute)),
        0x5E => Some(Instruction::Lsr(AddressingMode::AbsoluteX)),
        0x2A => Some(Instruction::Rol(AddressingMode::Accumulator)),
        0x26 => Some(Instruction::Rol(AddressingMode::ZeroPage)),
        0x36 => Some(Instruction::Rol(AddressingMode::ZeroPageX)),
        0x2E => Some(Instruction::Rol(AddressingMode::Absolute)),
        0x3E => Some(Instruction::Rol(AddressingMode::AbsoluteX)),
        0x6A => Some(Instruction::Ror(AddressingMode::Accumulator)),
        0x66 => Some(Instruction::Ror(AddressingMode::ZeroPage)),
        0x76 => Some(Instruction::Ror(AddressingMode::ZeroPageX)),
        0x6E => Some(Instruction::Ror(AddressingMode::Absolute)),
        0x7E => Some(Instruction::Ror(AddressingMode::AbsoluteX)),
        0x24 => Some(Instruction::Bit(AddressingMode::ZeroPage)),
        0x2C => Some(Instruction::Bit(AddressingMode::Absolute)),
        _ => None,
    }
}

/// The instructions that touch only the registers.
pub open spec fn is_implied(ins: Instruction) -> bool {
    match ins {
        Instruction::Nop | Instruction::Clc | Instruction::Sec | Instruction::Cli | Instruction::Sei
        | Instruction::Clv | Instruction::Cld | Instruction::Sed | Instruction::Tax | Instruction::Txa
        | Instruction::Tay | Instruction::Tya | Instruction::Tsx | Instruction::Txs | Instruction::Dex
        | Instruction::Dey | Instruction::Inx | Instruction::Iny => true,
        _ => false,
    }
}

/// What an instruction that touches only the registers does to them.
pub open spec fn implied_effect(c: Cpu, ins: Instruction) -> Cpu {
    let p = c.p;
    match ins {
        Instruction::Clc => Cpu { p: ParsedBites { carry: false, ..p }, ..c },
        Instruction::Sec => Cpu { p: ParsedBites { carry: true, ..p }, ..c },
        Instruction::Cli => Cpu { p: ParsedBites { interrupt: false, ..p }, ..c },
        Instruction::Sei => Cpu { p: ParsedBites { interrupt: true, ..p }, ..c },
        Instruction::Clv => Cpu { p: ParsedBites { overflow: false, ..p }, ..c },
        Instruction::Cld => Cpu { p: ParsedBites { decimal: false, ..p }, ..c },
        Instruction::Sed => Cpu { p: ParsedBites { decimal: true, ..p }, ..c },
        Instruction::Tax => set_nz(Cpu { x: c.a, ..c }, c.a),
        Instruction::Txa => set_nz(Cpu { a: c.x, ..c }, c.x),
        Instruction::Tay => set_nz(Cpu { y: c.a, ..c }, c.a),
        Instruction::Tya => set_nz(Cpu { a: c.y, ..c }, c.y),
        Instruction::Tsx => set_nz(Cpu { x: c.sp, ..c }, c.sp),
        Instruction::Txs => Cpu { sp: c.x, ..c },
        Instruction::Dex => step_register(c, Register::X, -1),
        Instruction::Dey => step_register(c, Register::Y, -1),
        Instruction::Inx => step_register(c, Register::X, 1),
        Instruction::Iny => step_register(c, Register::Y, 1),
        _ => c,
    }
}

/// What an instruction does, once its opcode has been fetched.
#[verifier::opaque]
pub open spec fn execute<B: Bus>(r: Run<B::V>, ins: Instruction) -> Run<B::V> {
    let c = r.cpu;
    let p = c.p;
    match ins {
        Instruction::Brk => brk_effect::<B>(r),
        Instruction::Rti => rti_effect::<B>(r),
        Instruction::Bpl => branch_effect::<B>(r, !p.negative),
        Instruction::Bmi => branch_effect::<B>(r, p.negative),
        Instruction::Bvc => branch_effect::<B>(r, !p.overflow),
        Instruction::Bvs => branch_effect::<B>(r, p.overflow),
        Instruction::Bcc => branch_effect::<B>(r, !p.carry),
        Instruction::Bcs => branch_effect::<B>(r, p.carry),
        Instruction::Bne => branch_effect::<B>(r, !p.zero),
        Instruction::Beq => branch_effect::<B>(r, p.zero),
        Instruction::Jmp(m) => jmp_effect::<B>(r, m),
        Instruction::Jsr(m) => jsr_effect::<B>(r, m),
        Instruction::Rts => rts_effect::<B>(r),
        Instruction::Pha => push_byte::<B>(r, c.a),
        Instruction::Php => push_byte::<B>(r, pushed_status(p)),
        Instruction::Pla => pla_effect::<B>(r),
        Instruction::Plp => plp_effect::<B>(r),
        Instruction::Lda(m) => load_effect::<B>(r, m, Register::A),
        Instruction::Ldx(m) => load_effect::<B>(r, m, Register::X),
        Instruction::Ldy(m) => load_effect::<B>(r, m, Register::Y),
        Instruction::Sta(m) => store_effect::<B>(r, m, Register::A),
        Instruction::Stx(m) => store_effect::<B>(r, m, Register::X),
        Instruction::Sty(m) => store_effect::<B>(r, m, Register::Y),
        Instruction::Adc(m) => adc_effect::<B>(r, m),
        Instruction::Sbc(m) => sbc_effect::<B>(r, m),
        Instruction::Dec(m) => step_memory_effect::<B>(r, m, -1),
        Instruction::Inc(m) => step_memory_effect::<B>(r, m, 1),
        Instruction::Isb(m) => isb_effect::<B>(r, m),
        Instruction::Slo(m) => slo_effect::<B>(r, m),
        Instruction::Rra(m) => rra_effect::<B>(r, m),
        Instruction::Rla(m) => rla_effect::<B>(r, m),
        Instruction::And(m) => logic_effect::<B>(r, m, Logic::And),
        Instruction::Ora(m) => logic_effect::<B>(r, m, Logic::Or),
        Instruction::Eor(m) => logic_effect::<B>(r, m, Logic::Xor),
        Instruction::Cmp(m) => compare_effect::<B>(r, m, Register::A),
        Instruction::Cpx(m) => compare_effect::<B>(r, m, Register::X),
        Instruction::Cpy(m) => compare_effect::<B>(r, m, Register::Y),
        Instruction::Asl(m) => shift_effect::<B>(r, m, Shift::Asl),
        Instruction::Lsr(m) => shift_effect::<B>(r, m, Shift::Lsr),
        Instruction::Rol(m) => shift_effect::<B>(r, m, Shift::Rol),
        Instruction::Ror(m) => shift_effect::<B>(r, m, Shift::Ror),
        Instruction::Bit(m) => bit_effect::<B>(r, m),
        _ => with_cpu(r, implied_effect(c, ins)),
    }
}

/// One step of the processor: fetch the opcode, move past it, add its base cycle count,
/// and execute it.
pub open spec fn step<B: Bus>(r: Run<B::V>) -> Run<B::V> {
    let (r1, opcode) = read_at::<B>(r, r.cpu.pc);
    let r2 = fail_if(with_cpu(r1, Cpu { pc: (r.cpu.pc + 1) as u16, ..r1.cpu }), r.cpu.pc == 0xFFFF);
    let r3 = add_cycles(r2, OPCODES_CYCLES@[opcode as int] as int);
    if r3.fault {
        r3
    } else {
        execute_opcode::<B>(r3, opcode)
    }
}

/// What the instruction an opcode stands for does; an unknown opcode does nothing.
pub open spec fn execute_opcode<B: Bus>(r: Run<B::V>, opcode: u8) -> Run<B::V> {
    match decode(opcode) {
        Some(ins) => execute::<B>(r, ins),
        None => r,
    }
}

pub broadcast proof fn lemma_execute_implied<B: Bus>(r: Run<B::V>, ins: Instruction)
    requires
        is_implied(ins),
    ensures
        #[trigger] execute::<B>(r, ins) == with_cpu(r, implied_effect(r.cpu, ins)),
{
    reveal(execute);
}

/// Absolute,Y addressing: the operand address is the little-endian word after the opcode
/// plus the Y register, modulo 2^16; the X register plays no part.
pub proof fn lemma_absolute_y_address<B: Bus>(r: Run<B::V>, is_write: bool, other_x: u8)
    ensures
        ({
            let lo = B::peek(r.bus, r.cpu.pc);
            let hi = B::peek(B::after_read(r.bus, r.cpu.pc), ((r.cpu.pc + 1) % 0x10000) as u16);
            &&& operand::<B>(r, AddressingMode::AbsoluteY, is_write).1 == ((hi * 256 + lo + r.cpu.y) % 0x10000) as u16
            &&& operand::<B>(with_cpu(r, Cpu { x: other_x, ..r.cpu }), AddressingMode::AbsoluteY, is_write).1
                == operand::<B>(r, AddressingMode::AbsoluteY, is_write).1
        }),
{
    reveal(operand);
}

/// Absolute,X addressing: the operand address is the little-endian word after the opcode
/// plus the X register, modulo 2^16.
pub proof fn lemma_absolute_x_address<B: Bus>(r: Run<B::V>, is_write: bool)
    ensures
        ({
            let lo = B::peek(r.bus, r.cpu.pc);
            let hi = B::peek(B::after_read(r.bus, r.cpu.pc), ((r.cpu.pc + 1) % 0x10000) as u16);
            operand::<B>(r, AddressingMode::AbsoluteX, is_write).1 == ((hi * 256 + lo + r.cpu.x) % 0x10000) as u16
        }),
{
    reveal(operand);
}

/// `LDA abs,Y` loads the accumulator with the byte at the word after the opcode plus Y,
/// read after the two operand bytes, and moves the program counter past them.
pub proof fn lemma_lda_absolute_y<B: Bus>(r: Run<B::V>)
    ensures
        ({
            let pc = r.cpu.pc;
            let pc1 = ((pc + 1) % 0x10000) as u16;
            let lo = B::peek(r.bus, pc);
            let b1 = B::after_read(r.bus, pc);
            let hi = B::peek(b1, pc1);
            let b2 = B::after_read(b1, pc1);
            let target = ((hi * 256 + lo + r.cpu.y) % 0x10000) as u16;
            let after = execute::<B>(r, Instruction::Lda(AddressingMode::AbsoluteY));
            &&& after.cpu.a == B::peek(b2, target)
            &&& after.cpu.pc == ((pc + 2) % 0x10000) as u16
            &&& after.bus == B::after_read(b2, target)
        }),
{
    reveal(execute);
    reveal(operand);
}

} // verus!
