//! Core of a handheld-console emulator: cartridge header decoding, memory-bank
//! controller emulation, and address-bus dispatch over the 16-bit address space.

pub mod arguments;
pub mod context;
pub mod emulator;
pub mod error;
pub mod hardware;
