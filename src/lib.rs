//! An RV32I instruction-set simulator core: a decoder, an ALU and a processor
//! that executes one whole instruction per step, each stated and proved
//! against a mathematical model of the architectural state.

pub mod elf_image;
pub mod object_file;
pub mod rv32i_alu;
pub mod rv32i_isa;
pub mod rv32i_processor;
pub mod step_laws;
pub mod utils;
