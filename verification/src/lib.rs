//! Core of a Nintendo Entertainment System emulator: the MOS 6502 CPU
//! interpreter and the address-decoded bus fabric it runs against.
//!
//! The crate is organised leaves-first: cartridge images are parsed into
//! [`cartridge::Cartridge`], the CPU-visible PPU register surface lives in
//! [`ppu::PPU`], both are owned by [`bus::Bus`], and [`cpu::CPU`] is a pure
//! state machine that receives the bus by mutable reference on every call.
//! Every state change is specified by a mathematical model: each executable
//! function's contract equates its effect with a spec-level interpreter over
//! view structures, and [`laws`] states the system-wide properties proved
//! over that interpreter.

pub mod bus;
pub mod cartridge;
pub mod cpu;
pub mod cpu_opcodes;
pub mod cpu_step;
pub mod errors;
pub mod frame;
pub mod laws;
pub mod nes;
pub mod ppu;
pub mod trace;
