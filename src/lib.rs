//! A decompiler for a register-machine bytecode: the module's pools and type table, the
//! instruction set and its binary form, lifting of instruction streams into structured
//! statements, assembly of classes, and a pretty printer for the resulting syntax tree.

pub mod text;
pub mod types;
pub mod pool;
pub mod opcode;
pub mod codec;
pub mod ast;
pub mod lift_model;
pub mod lift;
pub mod assemble;
pub mod fmt;
pub mod fmt_lemmas;
