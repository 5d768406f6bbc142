//! Core of a Game Boy (DMG) emulator: instruction decoder, CPU interpreter,
//! memory bus with memory-mapped I/O, interrupt controller and the PPU state
//! machine that renders the background layer scan-line by scan-line.

pub mod bits;
pub mod error;
pub mod instructions;
pub mod memory_bus;
pub mod cpu;
pub mod alu;
pub mod loads;
pub mod control_flow;
pub mod ppu;
pub mod double_buffer;
