//! Dalvik bytecode: instruction formats, the opcode table, and the decoder.

pub mod format;
pub mod opcode;
pub mod value_map;
pub mod instruction;
