//! A simulator for a 16-bit von Neumann educational architecture: a register
//! file of eight 16-bit registers, a flat word-addressed memory of 65,536
//! words, a single-valued condition-code register, and a fixed 16-opcode
//! encoding. A binary memory image is loaded at an origin address and executed
//! by repeated fetch-decode-execute cycles until a halting condition is
//! reached.

pub mod bits;
pub mod decode;
pub mod exec;
pub mod loader;
pub mod machine;
