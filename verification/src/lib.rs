pub mod audio;
pub mod bits;
pub mod clocks;
pub mod cpu;
pub mod graphics;
pub mod interruptor;
pub mod interuptor;
pub mod memory;
pub mod ports;
pub mod sega;
pub mod laws;
pub mod instruction_laws;
