use nes_emu::cartridge::Cartridge;
use nes_emu::console::{Console, Ram};
use nes_emu::cpu::{Bus, Cpu, ParsedBites};
use nes_emu::joypad::Joypad;
use nes_emu::ppu::Ppu;

const NMI_HANDLER: u16 = 0x8100;
const BRK_HANDLER: u16 = 0x8200;

/// A console whose 16 KiB program ROM holds `program` at 0x8000, `handler` at the NMI vector
/// target and a `RTI` at the BRK target.
fn console_with(program: &[u8], nmi_handler: &[u8]) -> Console {
    let mut image = vec![0x4E, 0x45, 0x53, 0x1A, 1, 1, 0, 0, 0, 0, 0, 0, 0, 0, 0, 0];
    let mut prg = vec![0xEAu8; 16384];
    prg[..program.len()].copy_from_slice(program);
    let nmi_at = (NMI_HANDLER - 0x8000) as usize;
    prg[nmi_at..nmi_at + nmi_handler.len()].copy_from_slice(nmi_handler);
    prg[(BRK_HANDLER - 0x8000) as usize] = 0x40;
    prg[0x3FFA] = (NMI_HANDLER & 0xFF) as u8;
    prg[0x3FFB] = (NMI_HANDLER >> 8) as u8;
    prg[0x3FFC] = 0x00;
    prg[0x3FFD] = 0x80;
    prg[0x3FFE] = (BRK_HANDLER & 0xFF) as u8;
    prg[0x3FFF] = (BRK_HANDLER >> 8) as u8;
    image.extend_from_slice(&prg);
    image.extend_from_slice(&vec![0u8; 8192]);
    let cartridge = Cartridge::parse_rom_data(&image);
    let ppu = Ppu::new(&cartridge);
    Console { ram: Ram::new(), ppu, cartridge, joypad: Joypad::new() }
}

fn boot(program: &[u8]) -> (Cpu, Console) {
    let mut console = console_with(program, &[0x40]);
    let mut cpu = Cpu::new();
    cpu.internal_reset(&mut console);
    (cpu, console)
}

fn run(cpu: &mut Cpu, console: &mut Console, steps: usize) -> u64 {
    let mut total = 0;
    for _ in 0..steps {
        total += cpu.make_step_and_return_cycles(console);
    }
    total
}

#[test]
fn reset_loads_the_vector_and_power_on_registers() {
    let (mut cpu, _console) = boot(&[]);
    assert_eq!(cpu.pc, 0x8000);
    assert_eq!(cpu.sp, 0xFD);
    assert_eq!((cpu.a, cpu.x, cpu.y), (0, 0, 0));
    assert_eq!(cpu.p.to_byte(), 0x24);
    assert_eq!(cpu.cycles, 0);
}

#[test]
fn new_cpu_starts_at_zero() {
    let mut cpu = Cpu::new();
    assert_eq!(cpu.pc, 0);
    assert_eq!(cpu.sp, 0xFD);
    assert_eq!(cpu.p.to_byte(), 0x24);
}

#[test]
fn status_byte_round_trips() {
    let mut p = ParsedBites::new();
    assert_eq!(p.to_byte(), 0x24);
    for b in 0..=255u8 {
        p.from_byte(b);
        assert_eq!(p.to_byte(), b);
    }
    p.from_byte(0x81);
    assert!(p.carry && p.negative && !p.zero && !p.overflow && !p.interrupt);
}

#[test]
fn lda_immediate_sets_zero_and_negative() {
    let (mut cpu, mut console) = boot(&[0xA9, 0x00, 0xA9, 0x80]);
    assert_eq!(cpu.make_step_and_return_cycles(&mut console), 2);
    assert!(cpu.p.zero && !cpu.p.negative);
    assert_eq!(cpu.make_step_and_return_cycles(&mut console), 2);
    assert_eq!(cpu.a, 0x80);
    assert!(!cpu.p.zero && cpu.p.negative);
    assert_eq!(cpu.pc, 0x8004);
    assert_eq!(cpu.cycles, 4);
}

#[test]
fn adc_sets_carry_and_overflow() {
    // CLC; LDA #$7F; ADC #$01; LDA #$FF; ADC #$01
    let (mut cpu, mut console) = boot(&[0x18, 0xA9, 0x7F, 0x69, 0x01, 0xA9, 0xFF, 0x69, 0x01]);
    run(&mut cpu, &mut console, 3);
    assert_eq!(cpu.a, 0x80);
    assert!(cpu.p.overflow && cpu.p.negative && !cpu.p.carry);
    run(&mut cpu, &mut console, 2);
    assert_eq!(cpu.a, 0x00);
    assert!(cpu.p.carry && cpu.p.zero && !cpu.p.overflow);
}

#[test]
fn sbc_borrows() {
    // SEC; LDA #$05; SBC #$06
    let (mut cpu, mut console) = boot(&[0x38, 0xA9, 0x05, 0xE9, 0x06]);
    run(&mut cpu, &mut console, 3);
    assert_eq!(cpu.a, 0xFF);
    assert!(!cpu.p.carry && cpu.p.negative && !cpu.p.overflow);
}

#[test]
fn compare_sets_carry_and_zero() {
    // LDA #$10; CMP #$10; CMP #$20; LDX #$05; CPX #$04; LDY #$01; CPY #$02
    let (mut cpu, mut console) = boot(&[0xA9, 0x10, 0xC9, 0x10, 0xC9, 0x20, 0xA2, 0x05, 0xE0, 0x04, 0xA0, 0x01, 0xC0, 0x02]);
    run(&mut cpu, &mut console, 2);
    assert!(cpu.p.carry && cpu.p.zero);
    run(&mut cpu, &mut console, 1);
    assert!(!cpu.p.carry && !cpu.p.zero && cpu.p.negative);
    run(&mut cpu, &mut console, 2);
    assert!(cpu.p.carry && !cpu.p.zero);
    run(&mut cpu, &mut console, 2);
    assert!(!cpu.p.carry && cpu.p.negative);
}

#[test]
fn branch_moves_by_a_signed_offset() {
    // LDX #$01; BNE -4 (back to 0x8000); BEQ +2
    let (mut cpu, mut console) = boot(&[0xA2, 0x01, 0xD0, 0xFC]);
    run(&mut cpu, &mut console, 1);
    assert_eq!(cpu.make_step_and_return_cycles(&mut console), 2);
    assert_eq!(cpu.pc, 0x8000);
    let (mut cpu, mut console) = boot(&[0xA2, 0x01, 0xF0, 0x10]);
    run(&mut cpu, &mut console, 2);
    assert_eq!(cpu.pc, 0x8004);
}

#[test]
fn jsr_then_rts_returns_after_the_call() {
    let mut program = vec![0x20, 0x10, 0x80, 0xEA];
    program.resize(0x10, 0xEA);
    program.push(0x60);
    let (mut cpu, mut console) = boot(&program);
    assert_eq!(cpu.make_step_and_return_cycles(&mut console), 6);
    assert_eq!(cpu.pc, 0x8010);
    assert_eq!(cpu.sp, 0xFB);
    assert_eq!(console.read(0x01FD), 0x80);
    assert_eq!(console.read(0x01FC), 0x02);
    assert_eq!(cpu.make_step_and_return_cycles(&mut console), 6);
    assert_eq!(cpu.pc, 0x8003);
    assert_eq!(cpu.sp, 0xFD);
}

#[test]
fn pha_then_pla_restores_the_accumulator() {
    // LDA #$42; PHA; LDA #$00; PLA
    let (mut cpu, mut console) = boot(&[0xA9, 0x42, 0x48, 0xA9, 0x00, 0x68]);
    run(&mut cpu, &mut console, 2);
    assert_eq!(cpu.sp, 0xFC);
    assert_eq!(console.read(0x01FD), 0x42);
    run(&mut cpu, &mut console, 2);
    assert_eq!(cpu.a, 0x42);
    assert_eq!(cpu.sp, 0xFD);
    assert!(!cpu.p.zero && !cpu.p.negative);
}

#[test]
fn php_then_plp_sets_break_and_unused() {
    // SEC; PHP; CLC; PLP
    let (mut cpu, mut console) = boot(&[0x38, 0x08, 0x18, 0x28]);
    run(&mut cpu, &mut console, 2);
    assert_eq!(console.read(0x01FD), 0x35);
    run(&mut cpu, &mut console, 2);
    assert!(cpu.p.carry && cpu.p.break_command && cpu.p.unused);
}

#[test]
fn nmi_then_rti_resumes_the_program() {
    let (mut cpu, mut console) = boot(&[0x38, 0xEA]);
    run(&mut cpu, &mut console, 1);
    let before = cpu.cycles;
    cpu.nmi(&mut console);
    assert_eq!(cpu.pc, NMI_HANDLER);
    assert_eq!(cpu.cycles, before + 7);
    assert!(cpu.p.interrupt);
    assert_eq!(console.read(0x01FB), 0x25);
    run(&mut cpu, &mut console, 1);
    assert_eq!(cpu.pc, 0x8001);
    assert_eq!(cpu.sp, 0xFD);
    assert!(cpu.p.carry && cpu.p.interrupt && !cpu.p.break_command && cpu.p.unused);
}

#[test]
fn brk_pushes_the_return_address_and_status() {
    let (mut cpu, mut console) = boot(&[0x00, 0xFF, 0xEA]);
    assert_eq!(cpu.make_step_and_return_cycles(&mut console), 7);
    assert_eq!(cpu.pc, BRK_HANDLER);
    assert_eq!(console.read(0x01FD), 0x80);
    assert_eq!(console.read(0x01FC), 0x02);
    assert_eq!(console.read(0x01FB), 0x34);
    run(&mut cpu, &mut console, 1);
    assert_eq!(cpu.pc, 0x8002);
}

#[test]
fn indexed_read_across_a_page_costs_a_cycle() {
    // LDX #$FF; LDA $80F0,X; LDA $8000,X
    let (mut cpu, mut console) = boot(&[0xA2, 0xFF, 0xBD, 0xF0, 0x80, 0xBD, 0x00, 0x80]);
    run(&mut cpu, &mut console, 1);
    assert_eq!(cpu.make_step_and_return_cycles(&mut console), 5);
    assert_eq!(cpu.make_step_and_return_cycles(&mut console), 4);
    // STA $01F0,X is charged for the crossing too.
    let (mut cpu, mut console) = boot(&[0xA2, 0xFF, 0x9D, 0xF0, 0x01]);
    run(&mut cpu, &mut console, 1);
    assert_eq!(cpu.make_step_and_return_cycles(&mut console), 6);
    // INC $01F0,X is not.
    let (mut cpu, mut console) = boot(&[0xA2, 0xFF, 0xFE, 0xF0, 0x01]);
    run(&mut cpu, &mut console, 1);
    assert_eq!(cpu.make_step_and_return_cycles(&mut console), 7);
}

#[test]
fn store_and_load_through_ram_mirrors() {
    // LDA #$37; STA $0200; LDX $0200; LDY $0A00
    let (mut cpu, mut console) = boot(&[0xA9, 0x37, 0x8D, 0x00, 0x02, 0xAE, 0x00, 0x02, 0xAC, 0x00, 0x0A]);
    run(&mut cpu, &mut console, 4);
    assert_eq!(cpu.x, 0x37);
    assert_eq!(cpu.y, 0x37);
}

#[test]
fn indirect_addressing_modes() {
    // LDA #$34; STA $10; LDA #$12; STA $11 ; pointer $1234 at $10
    // LDA #$99; STA $1234; LDY #$00; LDA ($10),Y ; LDX #$02; LDA #$00; LDA ($0E,X)
    let program = [
        0xA9, 0x34, 0x85, 0x10, 0xA9, 0x02, 0x85, 0x11, 0xA9, 0x99, 0x8D, 0x34, 0x02, 0xA0, 0x00, 0xB1, 0x10,
        0xA2, 0x02, 0xA9, 0x00, 0xA1, 0x0E,
    ];
    let (mut cpu, mut console) = boot(&program);
    run(&mut cpu, &mut console, 8);
    assert_eq!(cpu.a, 0x99);
    run(&mut cpu, &mut console, 3);
    assert_eq!(cpu.a, 0x99);
}

#[test]
fn indirect_jump_wraps_within_its_page() {
    // JMP ($80FF): low byte from $80FF, high byte from $8000 (the JMP opcode 0x6C).
    let mut program = vec![0x6C, 0xFF, 0x80];
    program.resize(0xFF, 0xEA);
    program.push(0x34);
    let (mut cpu, mut console) = boot(&program);
    assert_eq!(cpu.make_step_and_return_cycles(&mut console), 5);
    assert_eq!(cpu.pc, 0x6C34);
}

#[test]
fn shifts_and_rotates() {
    // LDA #$81; ASL A; ROL A; LSR A; ROR A
    let (mut cpu, mut console) = boot(&[0xA9, 0x81, 0x0A, 0x2A, 0x4A, 0x6A]);
    run(&mut cpu, &mut console, 2);
    assert_eq!(cpu.a, 0x02);
    assert!(cpu.p.carry);
    run(&mut cpu, &mut console, 1);
    assert_eq!(cpu.a, 0x05);
    assert!(!cpu.p.carry);
    run(&mut cpu, &mut console, 1);
    assert_eq!(cpu.a, 0x02);
    assert!(cpu.p.carry);
    run(&mut cpu, &mut console, 1);
    assert_eq!(cpu.a, 0x81);
    assert!(!cpu.p.carry && cpu.p.negative);
}

#[test]
fn memory_increment_decrement_and_bit() {
    // LDA #$C0; STA $20; INC $20; DEC $20; DEC $20; LDA #$40; BIT $20
    let (mut cpu, mut console) = boot(&[0xA9, 0xC0, 0x85, 0x20, 0xE6, 0x20, 0xC6, 0x20, 0xC6, 0x20, 0xA9, 0x40, 0x24, 0x20]);
    run(&mut cpu, &mut console, 3);
    assert_eq!(console.read(0x0020), 0xC1);
    run(&mut cpu, &mut console, 2);
    assert_eq!(console.read(0x0020), 0xBF);
    run(&mut cpu, &mut console, 2);
    assert!(cpu.p.zero && cpu.p.negative && !cpu.p.overflow);
}

#[test]
fn transfers_and_index_steps() {
    // LDA #$00; TAX; DEX; TXA; TAY; INY; TSX; TXS
    let (mut cpu, mut console) = boot(&[0xA9, 0x00, 0xAA, 0xCA, 0x8A, 0xA8, 0xC8, 0xBA, 0x9A]);
    run(&mut cpu, &mut console, 3);
    assert_eq!(cpu.x, 0xFF);
    assert!(cpu.p.negative);
    run(&mut cpu, &mut console, 3);
    assert_eq!(cpu.y, 0x00);
    assert!(cpu.p.zero);
    run(&mut cpu, &mut console, 2);
    assert_eq!(cpu.x, 0xFD);
    assert_eq!(cpu.sp, 0xFD);
}

#[test]
fn unknown_opcode_does_nothing() {
    let (mut cpu, mut console) = boot(&[0x02, 0xEA]);
    assert_eq!(cpu.make_step_and_return_cycles(&mut console), 0);
    assert_eq!(cpu.pc, 0x8001);
}

#[test]
fn slo_and_rla_keep_the_carry_clear() {
    // LDA #$81; STA $30; SEC; LDA #$01; SLO $30 -> memory 0x02, A 0x03, carry clear
    let (mut cpu, mut console) = boot(&[0xA9, 0x81, 0x85, 0x30, 0x38, 0xA9, 0x01, 0x07, 0x30, 0x38, 0x27, 0x30]);
    run(&mut cpu, &mut console, 5);
    assert_eq!(console.read(0x0030), 0x02);
    assert_eq!(cpu.a, 0x03);
    assert!(!cpu.p.carry);
    // SEC; RLA $30 -> A = 0x03 & 0x04 = 0, memory unchanged, carry clear
    run(&mut cpu, &mut console, 2);
    assert_eq!(cpu.a, 0x00);
    assert!(cpu.p.zero && !cpu.p.carry);
    assert_eq!(console.read(0x0030), 0x02);
}

#[test]
fn isb_and_rra_combine_memory_and_arithmetic() {
    // LDA #$04; STA $40; SEC; LDA #$10; ISB $40 -> memory 5, A = 0x10 - 5 = 0x0B
    let (mut cpu, mut console) = boot(&[0xA9, 0x04, 0x85, 0x40, 0x38, 0xA9, 0x10, 0xE7, 0x40, 0x18, 0x67, 0x40]);
    run(&mut cpu, &mut console, 5);
    assert_eq!(console.read(0x0040), 0x05);
    assert_eq!(cpu.a, 0x0B);
    assert!(cpu.p.carry);
    // CLC; RRA $40 -> A = 0x0B + (5 >> 1) = 0x0D, memory unchanged
    run(&mut cpu, &mut console, 2);
    assert_eq!(cpu.a, 0x0D);
    assert_eq!(console.read(0x0040), 0x05);
}

#[test]
fn flag_instructions() {
    // SEC; SED; SEI; CLV; CLD; CLI; CLC
    let (mut cpu, mut console) = boot(&[0x38, 0xF8, 0x78, 0xB8, 0xD8, 0x58, 0x18]);
    run(&mut cpu, &mut console, 3);
    assert!(cpu.p.carry && cpu.p.decimal && cpu.p.interrupt);
    run(&mut cpu, &mut console, 4);
    assert!(!cpu.p.carry && !cpu.p.decimal && !cpu.p.interrupt && !cpu.p.overflow);
}

#[test]
fn step_reports_the_cycles_it_added() {
    let (mut cpu, mut console) = boot(&[0xA9, 0x01, 0x8D, 0x00, 0x02, 0xEA]);
    let total = run(&mut cpu, &mut console, 3);
    assert_eq!(total, 2 + 4 + 2);
    assert_eq!(cpu.cycles, total);
}
