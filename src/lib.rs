//! Core of a handheld console emulator: the processor interpreter, the memory
//! bus and address router, the cartridge with its save media, and the interrupt
//! and power controllers.
pub mod bits;
pub mod psr;
pub mod bus;
pub mod rom;
pub mod backup;
pub mod bios;
pub mod cartridge;
pub mod memory;
pub mod cpu;
pub mod alu;
pub mod exception;
pub mod arm;
pub mod thumb;
pub mod control;
pub mod interrupt;
pub mod keypad;
pub mod gba;
