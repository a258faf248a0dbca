//! Codec for the command stream of a VGM chip-music log: a sequence of
//! opcode-tagged, variable-length register-write records, decoded into typed
//! instructions and re-encoded losslessly.

pub mod bytebuf;
pub mod command;
pub mod decode;
pub mod laws;
pub mod wire;
