pub mod address_bus;
pub mod cartridge;
pub mod cartridge_definitions;
pub mod cpu;
pub mod mbc;
pub mod ppu;
pub mod timer;

pub use address_bus::AddressBus;
pub use cartridge::Cartridge;
pub use cpu::CPU;
pub use mbc::Mbc;
pub use ppu::PPU;
pub use timer::Timer;
