# nes_emu

The core of a NES emulator, written in Verus: the 6502 processor, the picture processing
unit, NROM cartridges, the standard controller and the console bus that joins them, each
with a contract that Verus proves.

- `src/cpu.rs` — the processor and the `Bus` trait it runs against.
- `src/isa.rs` — what every instruction does, stated over registers and the bus's view.
- `src/timing.rs` — the cycle table.
- `src/ppu.rs`, `src/ppu_state.rs` — the picture unit and what each register access and each
  dot does to its state.
- `src/cartridge.rs` — iNES parsing and the NROM mapper.
- `src/joypad.rs` — the controller's shift register.
- `src/console.rs` — RAM and the memory map; laws about the stack and interrupts on it.
- `app/` — reading ROM files and the keyboard.
