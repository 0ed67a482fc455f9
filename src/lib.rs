pub mod bits;
pub mod cartridge;
pub mod cpu;
pub mod emulator;
pub mod joypad;
pub mod mbc;
pub mod memory;
pub mod ppu;
pub mod timer;
