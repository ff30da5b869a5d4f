pub mod utils;
pub mod cartridge;
pub mod cpu;
