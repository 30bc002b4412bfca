//! A virtual machine for an 8-bit bytecode architecture with sixteen 8-bit
//! registers, 4 KiB of memory holding a hex-digit font, a 64 x 32
//! monochrome framebuffer drawn by XOR, and two 60 Hz timers. Each
//! instruction's effect is specified by `cpu::execute_spec` and proved of
//! the executing code.

pub mod chip8;
pub mod cpu;
pub mod display;
pub mod error;
pub mod keyboard;
pub mod memory_bus;
pub mod opcodes;
pub mod timer;
