//! A Game Boy (DMG) emulator core: CPU, memory bus, cartridge banking,
//! picture processing unit and memory-mapped peripherals, with machine-checked
//! contracts for the instruction semantics and the address-space routing.

pub mod apu;
pub mod cartridge;
pub mod cpu;
pub mod debug;
pub mod gbc;
pub mod instruction;
pub mod joypad;
pub mod lcd;
pub mod memory_bus;
pub mod ppu;
pub mod register;
pub mod serial;
pub mod timer;
pub mod utils;
