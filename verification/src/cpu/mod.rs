pub mod pc_state;
pub mod status_flags;
pub mod flagtables;
pub mod instruction_set;
pub mod instructions;
pub mod cpu_core;
pub mod extended_instruction_set;
pub mod describe;
