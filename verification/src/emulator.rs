pub mod ferrisboy_emulator;

pub use ferrisboy_emulator::Config;
pub use ferrisboy_emulator::Emulator;
