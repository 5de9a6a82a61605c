//! Decoder for the Dalvik Executable (DEX) container format: a cursor over
//! the file's bytes, the section decoders, and the bytecode decoder.

pub mod bytecode;
pub mod parser;
pub mod types;
