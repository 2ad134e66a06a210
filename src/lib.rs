//! Core of a cycle-accurate Game Boy (DMG) emulator: the LR35902 CPU engine,
//! the pixel processing unit with its OAM DMA controller, and work RAM.
pub mod registers;
pub mod cpu;
pub mod decode;
pub mod execute;
pub mod runner;
pub mod ppu_registers;
pub mod ppu;
pub mod pixel_fifo;
pub mod scanline;
pub mod memory;
