pub mod bits;
pub mod cartridge;
pub mod console;
pub mod cpu;
pub mod isa;
pub mod joypad;
pub mod ppu;
pub mod ppu_state;
pub mod timing;
