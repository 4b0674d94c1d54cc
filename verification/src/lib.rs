pub mod cpu;
pub mod memory;
