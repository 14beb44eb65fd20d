//! An interpreter for a small 8-bit virtual machine with a 4 KiB memory,
//! sixteen registers, a call stack, two countdown timers, a 64x32
//! monochrome framebuffer and a sixteen-key hexadecimal keypad.
pub mod error;
pub mod framebuffer;
pub mod opcode;
pub mod semantics;
pub mod machine;
pub mod laws;
pub mod cartridge;
pub mod config;
