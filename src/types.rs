//! The entities of a DEX file and their decoders.

pub mod refs;
pub mod code;
pub mod header;
pub mod id;
pub mod map;
pub mod value;
pub mod file;
pub mod resolve;
