//! An emulator core for an 8-bit handheld console: register file, ALU, address
//! decoder with ROM banking, instruction engine and the frame interrupt.

pub mod alu;
pub mod instr;
pub mod video;
pub mod machine;
pub mod cpu;
pub mod engine;
pub mod laws;

pub use cpu::CPU;
pub use machine::{Fault, FaultKind, Registers};
pub use video::Video;
