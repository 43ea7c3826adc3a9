//! The console: work RAM, the picture unit, the cartridge and the controller on one bus.
use vstd::prelude::*;
use crate::cartridge::Cartridge;
use crate::cpu::{Bus, Cpu, ParsedBites, status_byte, status_flags, lemma_status_flags_of_byte};
use crate::cpu::AddressingMode;
use crate::bits::{wrap8, wrap16, word, low_byte, high_byte};
use crate::isa::{with_cpu, brk_effect, pushed_status, Run, Instruction, execute, operand, push_byte, pop_byte, push_word, pop_word, jsr_effect, rts_effect, nmi_effect, rti_effect, interrupt_status, stack_address, set_nz};
use crate::joypad::{Joypad, JoypadView, serial_value, serial_advance, strobe_write};
use crate::ppu::Ppu;
use crate::ppu_state::{PpuState, register_read, register_write};

verus! {

/// The 2 KiB of work RAM.
pub struct Ram {
    pub ram: Vec<u8>,
}

impl Ram {
    pub fn new() -> (r: Self)
        ensures
            r.ram@ == Seq::new(0x0800, |i: int| 0u8),
    {
        let r = Self { ram: vec![0; 0x0800] };
        assert(r.ram@ =~= Seq::new(0x0800, |i: int| 0u8));
        r
    }
}

pub struct Console {
    pub ram: Ram,
    pub ppu: Ppu,
    pub cartridge: Cartridge,
    pub joypad: Joypad,
}

/// The console as the processor sees it.
pub struct ConsoleState {
    pub ram: Seq<u8>,
    pub ppu: PpuState,
    pub cartridge: Cartridge,
    pub joypad: JoypadView,
}

impl View for Console {
    type V = ConsoleState;

    open spec fn view(&self) -> ConsoleState {
        ConsoleState { ram: self.ram.ram@, ppu: self.ppu@, cartridge: self.cartridge, joypad: self.joypad@ }
    }
}

/// The work RAM byte that an address in 0x0000..=0x1FFF reaches: 2 KiB seen four times.
pub open spec fn ram_index(address: u16) -> int {
    (address % 0x0800) as int
}

/// The RAM bytes that sprite DMA from page `page` copies into object attribute memory.
pub open spec fn dma_page(ram: Seq<u8>, page: u8) -> Seq<u8> {
    Seq::new(256, |i: int| ram[(page * 256 + i) % 0x0800])
}

/// Whether every byte that DMA from `page` copies exists.
pub open spec fn dma_fits(ram: Seq<u8>, page: u8) -> bool {
    forall|i: int| 0 <= i < 256 ==> #[trigger] ((page * 256 + i) % 0x0800) < ram.len()
}

/// A processor read: RAM (mirrored), the PPU registers (mirrored every 8 bytes), the
/// controller port at 0x4016, cartridge space from 0x4020; everything else reads 0.
#[verifier::opaque]
pub open spec fn console_read(s: ConsoleState, address: u16) -> (ConsoleState, u8) {
    if address <= 0x1FFF {
        (s, s.ram[ram_index(address)])
    } else if address <= 0x3FFF {
        let (ppu, value) = register_read(s.ppu, address % 8);
        (ConsoleState { ppu, ..s }, value)
    } else if address == 0x4016 {
        (ConsoleState { joypad: serial_advance(s.joypad), ..s }, serial_value(s.joypad))
    } else if address >= 0x4020 {
        (s, s.cartridge.value_at(address))
    } else {
        (s, 0)
    }
}

/// A processor write: RAM (mirrored), the PPU registers, sprite DMA at 0x4014, the
/// controller strobe at 0x4016 and cartridge space from 0x4020 (which NROM ignores);
/// other writes change nothing.
#[verifier::opaque]
pub open spec fn console_write(s: ConsoleState, address: u16, data: u8) -> ConsoleState {
    if address <= 0x1FFF {
        ConsoleState { ram: s.ram.update(ram_index(address), data), ..s }
    } else if address <= 0x3FFF {
        ConsoleState { ppu: register_write(s.ppu, address % 8, data), ..s }
    } else if address == 0x4014 {
        ConsoleState { ppu: PpuState { oam: dma_page(s.ram, data), ..s.ppu }, ..s }
    } else if address == 0x4016 {
        ConsoleState { joypad: strobe_write(s.joypad, data), ..s }
    } else {
        s
    }
}

impl Bus for Console {
    /// RAM reads need the RAM byte to exist; cartridge reads need the mapper to define the
    /// address.
    open spec fn readable(state: ConsoleState, address: u16) -> bool {
        if address <= 0x1FFF {
            ram_index(address) < state.ram.len()
        } else if address >= 0x4020 {
            state.cartridge.can_read(address)
        } else {
            true
        }
    }

    open spec fn peek(state: ConsoleState, address: u16) -> u8 {
        console_read(state, address).1
    }

    open spec fn after_read(state: ConsoleState, address: u16) -> ConsoleState {
        console_read(state, address).0
    }

    /// RAM writes need the RAM byte to exist, DMA needs the whole source page.
    open spec fn writable(state: ConsoleState, address: u16, data: u8) -> bool {
        if address <= 0x1FFF {
            ram_index(address) < state.ram.len()
        } else if address == 0x4014 {
            dma_fits(state.ram, data)
        } else {
            true
        }
    }

    open spec fn after_write(state: ConsoleState, address: u16, data: u8) -> ConsoleState {
        console_write(state, address, data)
    }

    fn read(&mut self, address: u16) -> (value: u8) {
        reveal(console_read);
        if address <= 0x1FFF {
            self.ram.ram[(address % 0x0800) as usize]
        } else if address <= 0x3FFF {
            self.ppu.read_register(address % 8)
        } else if address == 0x4016 {
            self.joypad.read_state()
        } else if address >= 0x4020 {
            self.cartridge.read(address)
        } else {
            0
        }
    }

    fn write(&mut self, address: u16, data: u8) {
        reveal(console_write);
        if address <= 0x1FFF {
            self.ram.ram.set((address % 0x0800) as usize, data);
        } else if address <= 0x3FFF {
            self.ppu.write_register(address % 8, data);
        } else if address == 0x4014 {
            let page_address = (data as u16) << 8;
            proof {
                lemma_page_address(data);
            }
            let ghost start = self@;
            proof {
                crate::ppu::lemma_oam_size(&self.ppu);
                assert(start.ppu.oam.subrange(0, 256) =~= start.ppu.oam);
                assert(dma_page(start.ram, data).subrange(0, 0) + start.ppu.oam.subrange(0, 256) =~= start.ppu.oam);
            }
            let mut i: u16 = 0;
            while i < 256
                invariant
                    i <= 256,
                    page_address == data * 256,
                    dma_fits(start.ram, data),
                    self@ == (ConsoleState {
                        ppu: PpuState { oam: dma_page(start.ram, data).subrange(0, i as int) + start.ppu.oam.subrange(i as int, 256), ..start.ppu },
                        ..start
                    }),
                    start.ppu.oam.len() == 256,
                decreases 256 - i,
            {
                assert(((page_address + i) % 0x0800) < start.ram.len());
                let byte = self.ram.ram[((page_address + i) % 0x0800) as usize];
                self.ppu.set_oam(i as u8, byte);
                i += 1;
                assert(dma_page(start.ram, data).subrange(0, i as int) + start.ppu.oam.subrange(i as int, 256) =~= (dma_page(start.ram, data).subrange(0, i - 1) + start.ppu.oam.subrange(i - 1, 256)).update(i - 1, byte));
            }
            assert(dma_page(start.ram, data).subrange(0, 256) + start.ppu.oam.subrange(256, 256) =~= dma_page(start.ram, data));
        } else if address == 0x4016 {
            self.joypad.step(data);
        } else if address >= 0x4020 {
            self.cartridge.write(address, data);
        }
    }
}

/// Reads never change RAM; a RAM read changes nothing and gives the RAM byte; a read of
/// cartridge space changes nothing.
pub proof fn lemma_console_read_facts(s: ConsoleState, address: u16)
    ensures
        console_read(s, address).0.ram == s.ram,
        address <= 0x1FFF ==> console_read(s, address) == (s, s.ram[ram_index(address)]),
        address >= 0x4020 ==> console_read(s, address).0 == s,
{
    reveal(console_read);
}

/// A RAM write changes only the RAM byte it reaches.
pub proof fn lemma_console_ram_write(s: ConsoleState, address: u16, data: u8)
    requires
        address <= 0x1FFF,
    ensures
        console_write(s, address, data) == (ConsoleState { ram: s.ram.update(ram_index(address), data), ..s }),
{
    reveal(console_write);
}

/// A RAM read gives back what a RAM write stored.
pub proof fn lemma_ram_read_after_write(s: ConsoleState, address: u16, data: u8)
    requires
        s.ram.len() == 0x0800,
        address <= 0x1FFF,
    ensures
        Console::writable(s, address, data),
        Console::readable(Console::after_write(s, address, data), address),
        Console::peek(Console::after_write(s, address, data), address) == data,
{
    lemma_console_ram_write(s, address, data);
    lemma_console_read_facts(Console::after_write(s, address, data), address);
}

/// The 2 KiB of RAM appear four times in 0x0000..=0x1FFF.
pub proof fn lemma_ram_mirrors(s: ConsoleState, address: u16)
    requires
        address <= 0x17FF,
    ensures
        Console::peek(s, address) == Console::peek(s, (address + 0x0800) as u16),
        Console::readable(s, address) == Console::readable(s, (address + 0x0800) as u16),
{
    lemma_console_read_facts(s, address);
    lemma_console_read_facts(s, (address + 0x0800) as u16);
}

/// A word split into its bytes and joined again is the same word.
pub proof fn lemma_word_bytes(v: u16)
    ensures
        word(high_byte(v), low_byte(v)) == v,
{
}

/// `PHA` followed by `PLA` leaves the accumulator and the stack pointer as they were (the
/// zero and negative flags then describe the accumulator).
pub proof fn lemma_pha_pla(r: Run<ConsoleState>)
    requires
        !r.fault,
        r.bus.ram.len() == 0x0800,
    ensures
        ({
            let r2 = execute::<Console>(execute::<Console>(r, Instruction::Pha), Instruction::Pla);
            &&& !r2.fault
            &&& r2.cpu == set_nz(r.cpu, r.cpu.a)
        }),
{
    reveal(execute);
    let p = push_byte::<Console>(r, r.cpu.a);
    lemma_push_byte_ram(r, r.cpu.a);
    lemma_pop_byte_ram(p);
}

/// A push stores the byte in page one of RAM at the stack pointer and moves the pointer down.
proof fn lemma_push_byte_ram(r: Run<ConsoleState>, v: u8)
    requires
        r.bus.ram.len() == 0x0800,
    ensures
        ({
            let p = push_byte::<Console>(r, v);
            &&& p.bus == (ConsoleState { ram: r.bus.ram.update(0x100 + r.cpu.sp, v), ..r.bus })
            &&& p.cpu == (Cpu { sp: wrap8(r.cpu.sp - 1), ..r.cpu })
            &&& p.fault == r.fault
        }),
{
    lemma_console_ram_write(r.bus, stack_address(r.cpu.sp), v);
}

/// A pop moves the stack pointer up and reads page one of RAM there, changing nothing else.
proof fn lemma_pop_byte_ram(r: Run<ConsoleState>)
    requires
        r.bus.ram.len() == 0x0800,
    ensures
        ({
            let (q, v) = pop_byte::<Console>(r);
            &&& v == r.bus.ram[0x100 + wrap8(r.cpu.sp + 1)]
            &&& q.bus == r.bus
            &&& q.cpu == (Cpu { sp: wrap8(r.cpu.sp + 1), ..r.cpu })
            &&& q.fault == r.fault
        }),
{
    lemma_console_read_facts(r.bus, stack_address(wrap8(r.cpu.sp + 1)));
}

/// `JSR` to any address followed by `RTS` comes back to the instruction after the `JSR`
/// with the stack pointer as it was.
#[verifier::rlimit(50)]
pub proof fn lemma_jsr_rts(r: Run<ConsoleState>)
    requires
        r.bus.ram.len() == 0x0800,
        !jsr_effect::<Console>(r, AddressingMode::Absolute).fault,
    ensures
        ({
            let r2 = rts_effect::<Console>(jsr_effect::<Console>(r, AddressingMode::Absolute));
            &&& !r2.fault
            &&& r2.cpu.pc == wrap16(r.cpu.pc + 2)
            &&& r2.cpu.sp == r.cpu.sp
        }),
{
    reveal(operand);
    let (r1, address) = operand::<Console>(r, AddressingMode::Absolute, false);
    lemma_console_read_facts(r.bus, r.cpu.pc);
    lemma_console_read_facts(console_read(r.bus, r.cpu.pc).0, wrap16(r.cpu.pc + 1));
    assert(r1.bus.ram == r.bus.ram);
    assert(r1.cpu.sp == r.cpu.sp);
    assert(r1.cpu.pc == wrap16(r.cpu.pc + 2));
    let ret = wrap16(r1.cpu.pc - 1);
    lemma_word_bytes(ret);
    let p1 = push_byte::<Console>(r1, high_byte(ret));
    lemma_push_byte_ram(r1, high_byte(ret));
    let p2 = push_byte::<Console>(p1, low_byte(ret));
    lemma_push_byte_ram(p1, low_byte(ret));
    let j = jsr_effect::<Console>(r, AddressingMode::Absolute);
    assert(j == with_cpu(p2, Cpu { pc: address, ..p2.cpu }));
    let (q1, lo) = pop_byte::<Console>(j);
    lemma_pop_byte_ram(j);
    assert(lo == low_byte(ret));
    let (q2, hi) = pop_byte::<Console>(q1);
    lemma_pop_byte_ram(q1);
    assert(hi == high_byte(ret));
}

/// A non-maskable interrupt whose handler returns at once with `RTI` resumes the interrupted
/// program: the program counter and stack pointer come back, and the status comes back with
/// the break bit clear and the unused bit set.
#[verifier::rlimit(50)]
pub proof fn lemma_nmi_rti(r: Run<ConsoleState>)
    requires
        r.bus.ram.len() == 0x0800,
        !nmi_effect::<Console>(r).fault,
    ensures
        ({
            let r2 = rti_effect::<Console>(nmi_effect::<Console>(r));
            &&& !r2.fault
            &&& r2.cpu.pc == r.cpu.pc
            &&& r2.cpu.sp == r.cpu.sp
            &&& r2.cpu.p == (ParsedBites { break_command: false, unused: true, ..r.cpu.p })
        }),
{
    let pc = r.cpu.pc;
    lemma_word_bytes(pc);
    let st = interrupt_status(r.cpu.p);
    lemma_status_flags_of_byte(ParsedBites { break_command: false, unused: true, ..r.cpu.p });
    let p1 = push_byte::<Console>(r, high_byte(pc));
    lemma_push_byte_ram(r, high_byte(pc));
    let p2 = push_byte::<Console>(p1, low_byte(pc));
    lemma_push_byte_ram(p1, low_byte(pc));
    let p3 = push_byte::<Console>(p2, st);
    lemma_push_byte_ram(p2, st);
    let n = nmi_effect::<Console>(r);
    lemma_console_read_facts(p3.bus, 0xFFFB);
    lemma_console_read_facts(p3.bus, 0xFFFA);
    assert(n.bus == p3.bus);
    assert(n.cpu.sp == p3.cpu.sp);
    let (q1, s1) = pop_byte::<Console>(n);
    lemma_pop_byte_ram(n);
    assert(s1 == st);
    let q2 = with_cpu(q1, Cpu { p: status_flags(s1), ..q1.cpu });
    let (q3, lo) = pop_byte::<Console>(q2);
    lemma_pop_byte_ram(q2);
    assert(lo == low_byte(pc));
    let (q4, hi) = pop_byte::<Console>(q3);
    lemma_pop_byte_ram(q3);
    assert(hi == high_byte(pc));
}

/// `BRK` whose handler returns at once with `RTI` resumes two bytes after the `BRK` (its
/// padding byte is skipped), with the stack pointer as it was and the status as it was but
/// with the break and unused bits set.
#[verifier::rlimit(50)]
pub proof fn lemma_brk_rti(r: Run<ConsoleState>)
    requires
        r.bus.ram.len() == 0x0800,
        !brk_effect::<Console>(r).fault,
    ensures
        ({
            let r2 = rti_effect::<Console>(brk_effect::<Console>(r));
            &&& !r2.fault
            &&& r2.cpu.pc == wrap16(r.cpu.pc + 1)
            &&& r2.cpu.sp == r.cpu.sp
            &&& r2.cpu.p == (ParsedBites { break_command: true, unused: true, ..r.cpu.p })
        }),
{
    let pc = wrap16(r.cpu.pc + 1);
    lemma_word_bytes(pc);
    let st = pushed_status(r.cpu.p);
    lemma_status_flags_of_byte(ParsedBites { break_command: true, unused: true, ..r.cpu.p });
    let r0 = with_cpu(r, Cpu { pc, ..r.cpu });
    let p1 = push_byte::<Console>(r0, high_byte(pc));
    lemma_push_byte_ram(r0, high_byte(pc));
    let p2 = push_byte::<Console>(p1, low_byte(pc));
    lemma_push_byte_ram(p1, low_byte(pc));
    let p3 = push_byte::<Console>(p2, st);
    lemma_push_byte_ram(p2, st);
    let b = brk_effect::<Console>(r);
    lemma_console_read_facts(p3.bus, 0xFFFE);
    lemma_console_read_facts(p3.bus, 0xFFFF);
    assert(b.bus == p3.bus);
    assert(b.cpu.sp == p3.cpu.sp);
    let (q1, s1) = pop_byte::<Console>(b);
    lemma_pop_byte_ram(b);
    assert(s1 == st);
    let q2 = with_cpu(q1, Cpu { p: status_flags(s1), ..q1.cpu });
    let (q3, lo) = pop_byte::<Console>(q2);
    lemma_pop_byte_ram(q2);
    assert(lo == low_byte(pc));
    let (q4, hi) = pop_byte::<Console>(q3);
    lemma_pop_byte_ram(q3);
    assert(hi == high_byte(pc));
}

proof fn lemma_page_address(data: u8)
    by (bit_vector)
    ensures
        (data as u16) << 8 == data * 256,
{
}

} // verus!
