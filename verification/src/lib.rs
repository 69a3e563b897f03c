//! Front end of a Game-Boy-compatible CPU emulator: a decoder that turns a
//! raw byte stream into a structured sequence of Sharp SM83 instructions,
//! plus the register file that the execution stage of such an emulator
//! operates on.

pub mod bitstring_matching;
pub mod errors;
pub mod instructions;
pub mod parser;
pub mod registers;
