//! A software model of the MOS 6502 processor as used in the NES: status
//! register, opcode decoding, operand addressing and instruction execution,
//! each with a machine-checked contract.

pub mod alu;
pub mod cpu;
pub mod instruction;
pub mod laws;
pub mod machine;
pub mod mem;
pub mod nes;
pub mod ppu;
pub mod status;
