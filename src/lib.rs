//! Core of an interpreter for a small 8-bit virtual machine: memory with a
//! built-in glyph table, a register file with wall-clock timers, a 16-key
//! keypad, a 64x32 monochrome framebuffer and the processor that ties them
//! together.

pub mod instruction;
pub mod opcode;
pub mod memory;
pub mod registers;
pub mod keypad;
pub mod display;
pub mod screen;
pub mod machine;
mod host;
pub mod cpu;
