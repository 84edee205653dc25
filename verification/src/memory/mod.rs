pub mod cartridge;
pub mod memory;
