//! The core of a Nintendo Entertainment System: the CPU, the picture and
//! audio processing units, the cartridge boards and the bus between them,
//! advanced one master clock tick at a time.

pub mod apu;
pub mod bits;
pub mod cartridge;
pub mod cpu;
pub mod cpu_bus;
pub mod mem;
pub mod ppu;
pub mod ram;
