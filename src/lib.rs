//! A cycle-counting MOS 6502 core: decode table, addressing modes,
//! instruction semantics, stack and interrupt sequencing.
pub mod address_mode;
pub mod bus;
pub mod cpu;
pub mod decode;
pub mod error;
pub mod gestalt;
pub mod instruction;
pub mod laws;
pub mod register;
pub mod semantics;
